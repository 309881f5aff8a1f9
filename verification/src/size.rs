use vstd::prelude::*;
use vstd::string::StringExecFns;

use crate::chars::{find_char, first_index, skip_chars, str_to_chars, take_chars};
use crate::chars::lemma_first_index;
use crate::decimal::{digit_value, int_error_text, is_digit, parse_u32, parse_unsigned, scan_decimal, IntParseError};
use crate::naming::{decimal, digit_char};

verus! {

/// The size that a `WIDTHxHEIGHT` argument names, or the text of the error: the part
/// before the first `x` is the width, the rest the height, both decimal `u32`s.
pub open spec fn spec_parse_size(s: Seq<char>) -> Result<(u32, u32), Seq<char>> {
    match first_index(s, 'x') {
        None => Err("expected WIDTHxHEIGHT"@),
        Some(i) => match parse_unsigned(s.take(i), 0xffff_ffff) {
            Err(e) => Err(int_error_text(e)),
            Ok(w) => match parse_unsigned(s.skip(i + 1), 0xffff_ffff) {
                Err(e) => Err(int_error_text(e)),
                Ok(h) => Ok((w as u32, h as u32)),
            },
        },
    }
}

/// Reads a `WIDTHxHEIGHT` size argument such as `200x100`.
pub fn parse_size(s: &str) -> (r: Result<(u32, u32), String>)
    ensures
        match spec_parse_size(s@) {
            Ok(wh) => r == Ok::<(u32, u32), String>(wh),
            Err(m) => r matches Err(e) && e@ == m,
        },
{
    let v = str_to_chars(s);
    let i = match find_char(&v, 'x') {
        Some(i) => i,
        None => {
            return Err(String::from_str("expected WIDTHxHEIGHT"));
        },
    };
    let w = match parse_u32(&take_chars(&v, i)) {
        Ok(w) => w,
        Err(e) => {
            return Err(e.message());
        },
    };
    let h = match parse_u32(&skip_chars(&v, i + 1)) {
        Ok(h) => h,
        Err(e) => {
            return Err(e.message());
        },
    };
    Ok((w, h))
}

proof fn lemma_digit_char(d: nat)
    requires
        d < 10,
    ensures
        is_digit(digit_char(d)),
        digit_value(digit_char(d)) == d,
        digit_char(d) != 'x',
        digit_char(d) != '+',
        digit_char(d) != '-',
{
    assert((d + 48) as u32 == d + 48);
    assert(((d + 48) as u32) as char as u32 == d + 48);
}

proof fn lemma_decimal_digits(n: nat)
    ensures
        decimal(n).len() > 0,
        forall|i: int| 0 <= i < decimal(n).len() ==> is_digit(#[trigger] decimal(n)[i]),
    decreases n,
{
    if n < 10 {
        lemma_digit_char(n);
    } else {
        lemma_decimal_digits(n / 10);
        lemma_digit_char(n % 10);
        let p = decimal(n / 10);
        assert forall|i: int| 0 <= i < decimal(n).len() implies is_digit(
            #[trigger] decimal(n)[i],
        ) by {
            if i < p.len() {
                assert(decimal(n)[i] == p[i]);
            }
        }
    }
}

proof fn lemma_scan_push(s: Seq<char>, c: char, acc: nat, max: nat)
    ensures
        scan_decimal(s.push(c), acc, max) == match scan_decimal(s, acc, max) {
            Ok(v) => if !is_digit(c) {
                Err(IntParseError::InvalidDigit)
            } else if v * 10 + digit_value(c) > max {
                Err(IntParseError::PosOverflow)
            } else {
                Ok(v * 10 + digit_value(c))
            },
            Err(e) => Err(e),
        },
    decreases s.len(),
{
    if s.len() == 0 {
        let t = s.push(c);
        assert(t[0] == c);
        assert(t.drop_first() =~= Seq::<char>::empty());
        if is_digit(c) && acc * 10 + digit_value(c) <= max {
            assert(scan_decimal(t.drop_first(), acc * 10 + digit_value(c), max) == Ok::<
                nat,
                IntParseError,
            >(acc * 10 + digit_value(c)));
        }
    } else {
        assert(s.push(c)[0] == s[0]);
        assert(s.push(c).drop_first() == s.drop_first().push(c));
        if is_digit(s[0]) && acc * 10 + digit_value(s[0]) <= max {
            lemma_scan_push(s.drop_first(), c, acc * 10 + digit_value(s[0]), max);
        }
    }
}

proof fn lemma_scan_decimal(n: nat, max: nat)
    requires
        n <= max,
    ensures
        scan_decimal(decimal(n), 0, max) == Ok::<nat, IntParseError>(n),
    decreases n,
{
    lemma_digit_char(n % 10);
    if n < 10 {
        let t = decimal(n);
        assert(t[0] == digit_char(n));
        assert(t.drop_first() =~= Seq::<char>::empty());
        assert(scan_decimal(t.drop_first(), n, max) == Ok::<nat, IntParseError>(n));
    } else {
        lemma_scan_decimal(n / 10, max);
        lemma_scan_push(decimal(n / 10), digit_char(n % 10), 0, max);
    }
}

proof fn lemma_parse_decimal(n: nat, max: nat)
    requires
        n <= max,
    ensures
        parse_unsigned(decimal(n), max) == Ok::<nat, IntParseError>(n),
{
    lemma_decimal_digits(n);
    lemma_scan_decimal(n, max);
    assert(is_digit(decimal(n)[0]));
}

/// A size written as `{w}x{h}` reads back as `(w, h)`.
pub proof fn lemma_parse_size_round_trip(w: u32, h: u32)
    ensures
        spec_parse_size(decimal(w as nat) + seq!['x'] + decimal(h as nat)) == Ok::<
            (u32, u32),
            Seq<char>,
        >((w, h)),
{
    let a = decimal(w as nat);
    let b = decimal(h as nat);
    let s = a + seq!['x'] + b;
    lemma_decimal_digits(w as nat);
    assert forall|j: int| 0 <= j < a.len() implies s[j] != 'x' by {
        assert(s[j] == a[j]);
        assert(is_digit(a[j]));
    }
    assert(s[a.len() as int] == 'x');
    lemma_first_index(s, 'x', a.len() as int);
    assert(s.take(a.len() as int) == a);
    assert(s.skip(a.len() + 1 as int) == b);
    lemma_parse_decimal(w as nat, 0xffff_ffff);
    lemma_parse_decimal(h as nat, 0xffff_ffff);
}

} // verus!
