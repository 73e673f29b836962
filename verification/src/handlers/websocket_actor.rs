//! The per-order session handle: the party identities and the session
//! actor.  The transport layer attaches a live connection per party to
//! the session's endpoints; the handle itself carries only what the
//! verified core owns.

use vstd::prelude::*;
use crate::handlers::event_actor::EventActor;
use crate::handlers::events::StateKind;

verus! {

/// One live order session: its identities and its actor.
pub struct OrderSessionHandler {
    pub order_id: String,
    pub customer_id: String,
    pub courier_id: String,
    pub actor: EventActor,
}

impl OrderSessionHandler {
    pub open spec fn wf(&self) -> bool {
        self.actor.wf()
    }

    /// A fresh session for one order, in state `Created`.
    pub fn new(order_id: String, customer_id: String, courier_id: String) -> (r: Self)
        ensures
            r.wf(),
            r.order_id == order_id,
            r.customer_id == customer_id,
            r.courier_id == courier_id,
            r.actor@.state == StateKind::Created,
            !r.actor@.completed,
            r.actor@.out_customer == Seq::<char>::empty(),
            r.actor@.out_courier == Seq::<char>::empty(),
    {
        Self { order_id, customer_id, courier_id, actor: EventActor::new() }
    }
}

} // verus!
