use labworks::my_arc::MyArc;
use labworks::order::{AmountKopecks, Order, OrderId, ShippingAddress};
use labworks::request_types::{duration_digits_within_limit, parse_duration_str, parse_shard_url, parse_user_id, HumanDuration, Money, TariffId};
use labworks::size::parse_size;

#[test]
fn order_success_path() {
    let order = Order::new(OrderId::new(1));
    let order = order.pay(AmountKopecks::from_hryvnias(1500));
    assert_eq!(order.state.amount, AmountKopecks(150000));
    let order = order.ship(ShippingAddress::new("Khreschatyk st. 1, Kyiv"));
    let order = order.deliver();
    assert_eq!(order.id, OrderId(1));
    assert_eq!(order.state.amount.0, 150000);
    assert_eq!(order.state.address.0, "Khreschatyk st. 1, Kyiv");
}

#[test]
fn order_cancellations() {
    let o = Order::new(OrderId::new(2)).cancel("customer changed mind");
    assert_eq!(o.state.reason, "customer changed mind");
    let o = Order::new(OrderId::new(3)).pay(AmountKopecks::from_hryvnias(300)).cancel("out of stock");
    assert_eq!(o.id.0, 3);
    assert_eq!(o.state.reason, "out of stock");
}

#[test]
fn my_arc_shares_value() {
    let a = MyArc::new(42u64);
    assert_eq!(MyArc::strong_count(&a), 1);
    let b = a.clone();
    assert_eq!(*b.get(), 42);
    assert_eq!(MyArc::strong_count(&a), 2);
    drop(b);
    assert_eq!(MyArc::strong_count(&a), 1);
}

#[test]
fn defaults_are_zero() {
    assert_eq!(Money::default(), Money(0));
    assert_eq!(TariffId::default(), TariffId(0));
    assert_eq!(HumanDuration::default(), HumanDuration { secs: 0, nanos: 0 });
}

#[test]
fn durations_ids_urls() {
    assert_eq!(parse_duration_str("2h 37min"), Ok(HumanDuration { secs: 9420, nanos: 0 }));
    assert_eq!(parse_duration_str("4.2s"), Ok(HumanDuration { secs: 4, nanos: 200_000_000 }));
    assert_eq!(parse_duration_str("0"), Ok(HumanDuration { secs: 0, nanos: 0 }));
    assert!(parse_duration_str("soon").is_err());
    let id = parse_user_id("550e8400-e29b-41d4-a716-446655440000").unwrap();
    assert_eq!(id.0, 0x550e8400_e29b_41d4_a716_446655440000u128);
    assert!(parse_user_id("not-a-uuid").is_err());
    assert_eq!(parse_shard_url("https://Example.net").unwrap().0, "https://example.net/");
    assert!(parse_shard_url("no scheme").is_err());
}

#[test]
fn sizes() {
    assert_eq!(parse_size("200x100"), Ok((200, 100)));
    assert_eq!(parse_size("200"), Err("expected WIDTHxHEIGHT".to_string()));
    assert_eq!(parse_size("x100"), Err("cannot parse integer from empty string".to_string()));
    assert_eq!(parse_size("20ax1"), Err("invalid digit found in string".to_string()));
    assert_eq!(parse_size("1x99999999999"), Err("number too large to fit in target type".to_string()));
    assert_eq!(parse_size("1x2x3"), Err("invalid digit found in string".to_string()));
}

#[test]
fn duration_digit_limit() {
    assert!(duration_digits_within_limit("2h 37min"));
    assert!(duration_digits_within_limit("12345678901s"));
    assert!(!duration_digits_within_limit("123456789012s"));
    assert!(!duration_digits_within_limit("18446744073709551615s 500ms 500ms"));
}

#[test]
fn printed_sizes_parse_back() {
    for (w, h) in [(0u32, 0u32), (800, 600), (1, u32::MAX), (4294967295, 7)] {
        assert_eq!(parse_size(&format!("{w}x{h}")), Ok((w, h)));
    }
}
