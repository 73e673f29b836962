use vstd::prelude::*;
use crate::models::position::{Distance, Position};

verus! {

/// What the courier may send while the order is `InTransit`.
pub enum InboundCourierUpdate {
    InTransit(Position),
    Delivered,
}

/// What may be notified to the customer while the order is `InTransit`.
pub enum OutboundCustomerUpdate {
    InTransit(Position),
    OrderNearby(Distance),
    Delivered,
}

} // verus!
