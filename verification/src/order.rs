use vstd::prelude::*;
use vstd::string::StringExecFns;

verus! {

/// Identifier of an order.
#[derive(Debug, Clone, Copy, PartialEq, Eq)]
pub struct OrderId(pub u64);

impl OrderId {
    pub fn new(id: u64) -> (r: Self)
        ensures
            r.0 == id,
    {
        OrderId(id)
    }
}

/// An amount of hryvnias, counted in kopecks.
#[derive(Debug, Clone, Copy, PartialEq, Eq, PartialOrd, Ord)]
pub struct AmountKopecks(pub u64);

impl AmountKopecks {
    /// The amount of `hrn` whole hryvnias.
    pub fn from_hryvnias(hrn: u64) -> (r: Self)
        requires
            hrn * 100 <= u64::MAX,
        ensures
            r.0 == hrn * 100,
    {
        AmountKopecks(hrn * 100)
    }
}

/// Where an order is shipped to.
#[derive(Debug)]
pub struct ShippingAddress(pub String);

impl ShippingAddress {
    pub fn new(addr: &str) -> (r: Self)
        ensures
            r.0@ == addr@,
    {
        ShippingAddress(String::from_str(addr))
    }
}

/// A freshly created order.
#[derive(Debug)]
pub struct New;

/// A paid order.
#[derive(Debug)]
pub struct Paid {
    pub amount: AmountKopecks,
}

/// An order on its way.
#[derive(Debug)]
pub struct Shipped {
    pub amount: AmountKopecks,
    pub address: ShippingAddress,
}

/// An order that has arrived.
#[derive(Debug)]
pub struct Delivered {
    pub amount: AmountKopecks,
    pub address: ShippingAddress,
}

/// An order that will not be completed.
#[derive(Debug)]
pub struct Cancelled {
    pub reason: String,
}

/// An order in the state `State`; only the moves that the state allows exist.
#[derive(Debug)]
pub struct Order<State> {
    pub id: OrderId,
    pub state: State,
}

impl Order<New> {
    /// A new order.
    pub fn new(id: OrderId) -> (r: Self)
        ensures
            r.id == id,
    {
        Order { id, state: New }
    }

    /// Pays the order.
    pub fn pay(self, amount: AmountKopecks) -> (r: Order<Paid>)
        ensures
            r.id == self.id,
            r.state.amount == amount,
    {
        Order { id: self.id, state: Paid { amount } }
    }

    /// Cancels the order before payment.
    pub fn cancel(self, reason: &str) -> (r: Order<Cancelled>)
        ensures
            r.id == self.id,
            r.state.reason@ == reason@,
    {
        Order { id: self.id, state: Cancelled { reason: String::from_str(reason) } }
    }
}

impl Order<Paid> {
    /// Ships the paid order to `address`.
    pub fn ship(self, address: ShippingAddress) -> (r: Order<Shipped>)
        ensures
            r.id == self.id,
            r.state.amount == self.state.amount,
            r.state.address.0@ == address.0@,
    {
        Order { id: self.id, state: Shipped { amount: self.state.amount, address } }
    }

    /// Cancels the order after payment; the amount paid is to be refunded.
    pub fn cancel(self, reason: &str) -> (r: Order<Cancelled>)
        ensures
            r.id == self.id,
            r.state.reason@ == reason@,
    {
        Order { id: self.id, state: Cancelled { reason: String::from_str(reason) } }
    }
}

impl Order<Shipped> {
    /// Delivers the shipped order.
    pub fn deliver(self) -> (r: Order<Delivered>)
        ensures
            r.id == self.id,
            r.state.amount == self.state.amount,
            r.state.address.0@ == self.state.address.0@,
    {
        Order {
            id: self.id,
            state: Delivered { amount: self.state.amount, address: self.state.address },
        }
    }
}

} // verus!
