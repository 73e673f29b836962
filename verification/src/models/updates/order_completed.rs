use vstd::prelude::*;

verus! {

/// What may be notified to the courier once the order is `Delivered`.
pub enum OutboundCourierUpdate {
    DeliveryConfirmed,
}

/// What the customer may send once the order is `Delivered`.
pub enum InboundCustomerUpdate {
    DeliveryConfirmed,
}

} // verus!
