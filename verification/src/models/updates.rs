//! Per-lifecycle-state message shapes: which update each party may send
//! inbound and which notifications may go outbound while the order is in
//! that state.  The association is fixed per state; a message that does
//! not match the active state's shape is a schema violation.

pub mod order_created;
pub mod order_in_transit;
pub mod order_completed;

use vstd::prelude::*;

verus! {

/// Marker for the `Created` lifecycle state.
pub struct OrderCreated {}

/// Marker for the `InTransit` lifecycle state.
pub struct OrderInTransit {}

/// Marker for the terminal `Delivered` lifecycle state.
pub struct OrderDelivered {}

impl OrderCreated {
    pub fn state_name() -> (r: &'static str)
        ensures
            r@ == "Created"@,
    {
        "Created"
    }
}

impl OrderInTransit {
    pub fn state_name() -> (r: &'static str)
        ensures
            r@ == "InTransit"@,
    {
        "InTransit"
    }
}

impl OrderDelivered {
    pub fn state_name() -> (r: &'static str)
        ensures
            r@ == "Delivered"@,
    {
        "Delivered"
    }
}

} // verus!
