//! Pure interpretation of schema-validated updates: for the current
//! state and an inbound update, the commands the session must execute.

use vstd::prelude::*;
use crate::handlers::events::{CommandModel, CustomerNotice, StateKind, TypedCommand};
use crate::handlers::handler::{
    CourierUpdateModel, CustomerUpdateModel, InboundCourierMessage, InboundCustomerMessage,
};
use crate::models::updates::{order_completed, order_created, order_in_transit};
use crate::handlers::events::position_body;

verus! {

/// Commands for a courier update: taking the order starts the transit,
/// a position is relayed to the customer and acknowledged, a delivery
/// report moves the order to `Delivered`.  Every other combination of
/// state and update yields no command.
pub open spec fn process_courier_spec(state: StateKind, u: CourierUpdateModel) -> Seq<
    CommandModel,
> {
    match (state, u) {
        (StateKind::Created, CourierUpdateModel::TookOrder) => seq![
            CommandModel::Transition(StateKind::InTransit),
        ],
        (StateKind::InTransit, CourierUpdateModel::Position(lat, lon)) => seq![
            CommandModel::SendCustomerNotify(position_body(lat, lon)),
            CommandModel::ProcessedCourierUpdate,
        ],
        (StateKind::InTransit, CourierUpdateModel::Delivered) => seq![
            CommandModel::Transition(StateKind::Delivered),
        ],
        _ => Seq::<CommandModel>::empty(),
    }
}

/// Commands for a customer update: confirming the delivery completes
/// the order; anything else yields no command.
pub open spec fn process_customer_spec(state: StateKind, u: CustomerUpdateModel) -> Seq<
    CommandModel,
> {
    match (state, u) {
        (StateKind::Delivered, CustomerUpdateModel::DeliveryConfirmed) => seq![
            CommandModel::OrderComplete,
        ],
        _ => Seq::<CommandModel>::empty(),
    }
}

/// The processor bound to the current state: the single dispatch point
/// for interpreting validated updates.
pub struct WebSocketUpdateProcessor {
    pub state: StateKind,
}

impl WebSocketUpdateProcessor {
    pub fn new(state: StateKind) -> (r: Self)
        ensures
            r.state == state,
    {
        Self { state }
    }

    pub fn process_courier_update(&mut self, update: InboundCourierMessage) -> (r: Vec<
        TypedCommand,
    >)
        ensures
            *final(self) == *old(self),
            r.deep_view() == process_courier_spec(old(self).state, update@),
    {
        let mut r: Vec<TypedCommand> = Vec::new();
        match (self.state, update) {
            (
                StateKind::Created,
                InboundCourierMessage::Created(order_created::InboundCourierUpdate::TookOrder),
            ) => {
                r.push(TypedCommand::Transition(StateKind::InTransit));
            },
            (
                StateKind::InTransit,
                InboundCourierMessage::InTransit(
                    order_in_transit::InboundCourierUpdate::InTransit(pos),
                ),
            ) => {
                r.push(
                    TypedCommand::SendCustomerNotify(
                        CustomerNotice::InTransit(
                            order_in_transit::OutboundCustomerUpdate::InTransit(pos),
                        ),
                    ),
                );
                r.push(TypedCommand::ProcessedCourierUpdate);
            },
            (
                StateKind::InTransit,
                InboundCourierMessage::InTransit(
                    order_in_transit::InboundCourierUpdate::Delivered,
                ),
            ) => {
                r.push(TypedCommand::Transition(StateKind::Delivered));
            },
            _ => {},
        }
        proof {
            assert(r.deep_view() =~= process_courier_spec(old(self).state, update@));
        }
        r
    }

    pub fn process_customer_update(&mut self, update: InboundCustomerMessage) -> (r: Vec<
        TypedCommand,
    >)
        ensures
            *final(self) == *old(self),
            r.deep_view() == process_customer_spec(old(self).state, update@),
    {
        let mut r: Vec<TypedCommand> = Vec::new();
        match (self.state, update) {
            (
                StateKind::Delivered,
                InboundCustomerMessage::Completed(
                    order_completed::InboundCustomerUpdate::DeliveryConfirmed,
                ),
            ) => {
                r.push(TypedCommand::OrderComplete);
            },
            _ => {},
        }
        proof {
            assert(r.deep_view() =~= process_customer_spec(old(self).state, update@));
        }
        r
    }
}

} // verus!
