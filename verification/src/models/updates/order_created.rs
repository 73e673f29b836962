use vstd::prelude::*;

verus! {

/// What the courier may send while the order is `Created`.
pub enum InboundCourierUpdate {
    TookOrder,
}

/// What may be notified to the customer while the order is `Created`.
pub enum OutboundCustomerUpdate {
    TookOrder,
}

} // verus!
