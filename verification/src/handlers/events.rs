//! The lifecycle states, the commands a handler may emit, and the exact
//! wire text of every outbound payload.

use vstd::prelude::*;
use crate::models::position::{Distance, Position};
use crate::models::updates::{order_completed, order_created, order_in_transit};

verus! {

/// The lifecycle state of an order session.
#[derive(Clone, Copy, PartialEq, Eq, Structural, Debug)]
pub enum StateKind {
    Created,
    InTransit,
    Delivered,
}

/// The two endpoints a session bridges.
#[derive(Clone, Copy, PartialEq, Eq, Structural, Debug)]
pub enum Party {
    Customer,
    Courier,
}

/// Position of a state along `Created -> InTransit -> Delivered`.
pub open spec fn state_index(k: StateKind) -> int {
    match k {
        StateKind::Created => 0,
        StateKind::InTransit => 1,
        StateKind::Delivered => 2,
    }
}

/// The name a state carries on the wire.
pub open spec fn state_name(k: StateKind) -> Seq<char> {
    match k {
        StateKind::Created => "Created"@,
        StateKind::InTransit => "InTransit"@,
        StateKind::Delivered => "Delivered"@,
    }
}

impl StateKind {
    /// Exec name of the state, as tagged onto outbound payloads.
    pub fn name(&self) -> (r: &'static str)
        ensures
            r@ == state_name(*self),
    {
        match self {
            StateKind::Created => "Created",
            StateKind::InTransit => "InTransit",
            StateKind::Delivered => "Delivered",
        }
    }
}

/// The fixed acknowledgment written after a processed update.
pub open spec fn processed_wire() -> Seq<char> {
    "\"PROCESSED\""@
}

/// The fixed completion notice, distinct from any state-tagged payload.
pub open spec fn complete_wire() -> Seq<char> {
    "\"ORDER_COMPLETE\""@
}

/// The diagnostic sent back for a message that fails the active
/// state's schema.
pub open spec fn error_wire() -> Seq<char> {
    "\"Error deserializing update\""@
}

/// The notice broadcast to both parties when the session transitions.
pub open spec fn transition_wire(k: StateKind) -> Seq<char> {
    "{\"transition\":\""@ + state_name(k) + "\"}"@
}

/// Opening of a position payload, inbound and outbound alike.
pub open spec fn position_prefix() -> Seq<char> {
    "{\"InTransit\":{\"lat\":"@
}

/// Separator between the two coordinates of a position payload.
pub open spec fn lon_infix() -> Seq<char> {
    ",\"lon\":"@
}

/// A position payload: the coordinate literals embedded verbatim.
pub open spec fn position_body(lat: Seq<char>, lon: Seq<char>) -> Seq<char> {
    position_prefix() + lat + lon_infix() + lon + "}}"@
}

/// A distance-hint payload.
pub open spec fn nearby_body(km: Seq<char>) -> Seq<char> {
    "{\"OrderNearby\":{\"km\":"@ + km + "}}"@
}

/// The `order_state` tag attached to a notification body before it is
/// written to an outbound cell.
pub open spec fn tag_suffix(k: StateKind) -> Seq<char> {
    ",\"order_state\":\""@ + state_name(k) + "\"}"@
}

/// A notification body (an object) with the current state's name
/// spliced in as its final `order_state` field.
pub open spec fn with_state_tag(body: Seq<char>, k: StateKind) -> Seq<char> {
    if body.len() == 0 {
        Seq::<char>::empty()
    } else {
        body.take(body.len() - 1) + tag_suffix(k)
    }
}

/// Any outbound notification payload to the customer, by the state
/// whose schema produces it.
pub enum CustomerNotice {
    Created(order_created::OutboundCustomerUpdate),
    InTransit(order_in_transit::OutboundCustomerUpdate),
}

/// Any outbound notification payload to the courier, by the state
/// whose schema produces it.
pub enum CourierNotice {
    Completed(order_completed::OutboundCourierUpdate),
}

/// Wire text of a customer notification body, before tagging.
pub open spec fn customer_notice_body(n: CustomerNotice) -> Seq<char> {
    match n {
        CustomerNotice::Created(order_created::OutboundCustomerUpdate::TookOrder) => "{\"TookOrder\":null}"@,
        CustomerNotice::InTransit(order_in_transit::OutboundCustomerUpdate::InTransit(p)) => position_body(
            p.lat@,
            p.lon@,
        ),
        CustomerNotice::InTransit(order_in_transit::OutboundCustomerUpdate::OrderNearby(d)) => nearby_body(
            d.km@,
        ),
        CustomerNotice::InTransit(order_in_transit::OutboundCustomerUpdate::Delivered) => "{\"Delivered\":null}"@,
    }
}

/// Wire text of a courier notification body, before tagging.
pub open spec fn courier_notice_body(n: CourierNotice) -> Seq<char> {
    match n {
        CourierNotice::Completed(order_completed::OutboundCourierUpdate::DeliveryConfirmed) => "{\"DeliveryConfirmed\":null}"@,
    }
}

/// A handler command over typed, per-state payloads.  Commands are
/// data; only the session actor executes them.
pub enum TypedCommand {
    SendCourierNotify(CourierNotice),
    SendCustomerNotify(CustomerNotice),
    ProcessedCourierUpdate,
    ProcessedCustomerUpdate,
    CustomerError(String),
    CourierError(String),
    Transition(StateKind),
    OrderComplete,
}

/// A handler command with its payload lowered to wire text.
pub enum Command {
    SendCourierNotify(String),
    SendCustomerNotify(String),
    ProcessedCourierUpdate,
    ProcessedCustomerUpdate,
    CustomerError(String),
    CourierError(String),
    Transition(StateKind),
    OrderComplete,
}

/// The mathematical form of a command: payloads as character sequences.
pub enum CommandModel {
    SendCourierNotify(Seq<char>),
    SendCustomerNotify(Seq<char>),
    ProcessedCourierUpdate,
    ProcessedCustomerUpdate,
    CustomerError(Seq<char>),
    CourierError(Seq<char>),
    Transition(StateKind),
    OrderComplete,
}

impl View for Command {
    type V = CommandModel;

    open spec fn view(&self) -> CommandModel {
        match self {
            Command::SendCourierNotify(s) => CommandModel::SendCourierNotify(s@),
            Command::SendCustomerNotify(s) => CommandModel::SendCustomerNotify(s@),
            Command::ProcessedCourierUpdate => CommandModel::ProcessedCourierUpdate,
            Command::ProcessedCustomerUpdate => CommandModel::ProcessedCustomerUpdate,
            Command::CustomerError(s) => CommandModel::CustomerError(s@),
            Command::CourierError(s) => CommandModel::CourierError(s@),
            Command::Transition(k) => CommandModel::Transition(*k),
            Command::OrderComplete => CommandModel::OrderComplete,
        }
    }
}

impl DeepView for Command {
    type V = CommandModel;

    open spec fn deep_view(&self) -> CommandModel {
        self.view()
    }
}

impl View for TypedCommand {
    type V = CommandModel;

    open spec fn view(&self) -> CommandModel {
        match self {
            TypedCommand::SendCourierNotify(n) => CommandModel::SendCourierNotify(
                courier_notice_body(*n),
            ),
            TypedCommand::SendCustomerNotify(n) => CommandModel::SendCustomerNotify(
                customer_notice_body(*n),
            ),
            TypedCommand::ProcessedCourierUpdate => CommandModel::ProcessedCourierUpdate,
            TypedCommand::ProcessedCustomerUpdate => CommandModel::ProcessedCustomerUpdate,
            TypedCommand::CustomerError(s) => CommandModel::CustomerError(s@),
            TypedCommand::CourierError(s) => CommandModel::CourierError(s@),
            TypedCommand::Transition(k) => CommandModel::Transition(*k),
            TypedCommand::OrderComplete => CommandModel::OrderComplete,
        }
    }
}

impl DeepView for TypedCommand {
    type V = CommandModel;

    open spec fn deep_view(&self) -> CommandModel {
        self.view()
    }
}

} // verus!
