//! Deserialization of inbound messages against the active state's
//! schema, serialization of outbound payloads, and the per-session
//! update handler that strings the two around the processor.

use vstd::prelude::*;
use vstd::string::*;
use crate::handlers::events::{
    Command, CommandModel, CourierNotice, CustomerNotice, StateKind, customer_notice_body,
    courier_notice_body, error_wire, position_body, position_prefix, lon_infix,
};
use crate::handlers::processor::{
    WebSocketUpdateProcessor, process_courier_spec, process_customer_spec,
};
use crate::models::position::Position;
use crate::models::updates::{order_completed, order_created, order_in_transit};
use crate::wire::{
    check_json_number, find_from, find_from_x, is_json_number, lemma_find_from, match_at,
    substr_owned,
};

verus! {

/// The mathematical form of a courier inbound update.
pub enum CourierUpdateModel {
    TookOrder,
    Position(Seq<char>, Seq<char>),
    Delivered,
}

/// The mathematical form of a customer inbound update.
pub enum CustomerUpdateModel {
    DeliveryConfirmed,
}

/// A courier inbound update, by the state whose schema accepted it.
pub enum InboundCourierMessage {
    Created(order_created::InboundCourierUpdate),
    InTransit(order_in_transit::InboundCourierUpdate),
}

/// A customer inbound update, by the state whose schema accepted it.
pub enum InboundCustomerMessage {
    Completed(order_completed::InboundCustomerUpdate),
}

impl View for InboundCourierMessage {
    type V = CourierUpdateModel;

    open spec fn view(&self) -> CourierUpdateModel {
        match self {
            InboundCourierMessage::Created(order_created::InboundCourierUpdate::TookOrder) => CourierUpdateModel::TookOrder,
            InboundCourierMessage::InTransit(
                order_in_transit::InboundCourierUpdate::InTransit(p),
            ) => CourierUpdateModel::Position(p.lat@, p.lon@),
            InboundCourierMessage::InTransit(
                order_in_transit::InboundCourierUpdate::Delivered,
            ) => CourierUpdateModel::Delivered,
        }
    }
}

impl DeepView for InboundCourierMessage {
    type V = CourierUpdateModel;

    open spec fn deep_view(&self) -> CourierUpdateModel {
        self.view()
    }
}

impl View for InboundCustomerMessage {
    type V = CustomerUpdateModel;

    open spec fn view(&self) -> CustomerUpdateModel {
        match self {
            InboundCustomerMessage::Completed(
                order_completed::InboundCustomerUpdate::DeliveryConfirmed,
            ) => CustomerUpdateModel::DeliveryConfirmed,
        }
    }
}

impl DeepView for InboundCustomerMessage {
    type V = CustomerUpdateModel;

    open spec fn deep_view(&self) -> CustomerUpdateModel {
        self.view()
    }
}

/// Wire text of the courier's "took order" report.
pub open spec fn took_order_wire() -> Seq<char> {
    "\"TookOrder\""@
}

/// Wire text of the courier's "delivered" report.
pub open spec fn delivered_wire() -> Seq<char> {
    "\"Delivered\""@
}

/// Wire text of the customer's delivery confirmation.
pub open spec fn confirm_wire() -> Seq<char> {
    "\"DeliveryConfirmed\""@
}

/// Deterministic parse of a position message
/// `{"InTransit":{"lat":<number>,"lon":<number>}}`: the coordinate
/// literals, or nothing when the text does not match the shape.
pub open spec fn parse_position_msg(s: Seq<char>) -> Option<(Seq<char>, Seq<char>)> {
    let p = position_prefix();
    let m = lon_infix();
    let e = "}}"@;
    let ci = find_from(s, p.len() as int, ',');
    if s.len() >= p.len() + m.len() + e.len() + 2 && s.subrange(0, p.len() as int) == p && ci
        + m.len() + 1 <= s.len() - e.len() && s.subrange(ci, ci + m.len() as int) == m
        && s.subrange(s.len() - e.len(), s.len() as int) == e && is_json_number(
        s.subrange(p.len() as int, ci),
    ) && is_json_number(s.subrange(ci + m.len(), s.len() - e.len())) {
        Some((s.subrange(p.len() as int, ci), s.subrange(ci + m.len(), s.len() - e.len())))
    } else {
        None
    }
}

/// What a courier message parses to under the schema of `state`:
/// nothing is accepted once the order is `Delivered`.
pub open spec fn parse_courier(state: StateKind, msg: Seq<char>) -> Option<CourierUpdateModel> {
    match state {
        StateKind::Created => if msg == took_order_wire() {
            Some(CourierUpdateModel::TookOrder)
        } else {
            None
        },
        StateKind::InTransit => if msg == delivered_wire() {
            Some(CourierUpdateModel::Delivered)
        } else {
            match parse_position_msg(msg) {
                Some(c) => Some(CourierUpdateModel::Position(c.0, c.1)),
                None => None,
            }
        },
        StateKind::Delivered => None,
    }
}

/// What a customer message parses to under the schema of `state`: only
/// the delivery confirmation, and only once the order is `Delivered`.
pub open spec fn parse_customer(state: StateKind, msg: Seq<char>) -> Option<CustomerUpdateModel> {
    match state {
        StateKind::Delivered => if msg == confirm_wire() {
            Some(CustomerUpdateModel::DeliveryConfirmed)
        } else {
            None
        },
        _ => None,
    }
}

/// Exec parse of a position message, matching [`parse_position_msg`].
pub fn parse_position(msg: &str) -> (r: Option<Position>)
    ensures
        match r {
            Some(p) => parse_position_msg(msg@) == Some((p.lat@, p.lon@)) && p.wf(),
            None => parse_position_msg(msg@) is None,
        },
{
    proof {
        reveal_strlit("{\"InTransit\":{\"lat\":");
        reveal_strlit(",\"lon\":");
        reveal_strlit("}}");
    }
    let pre = "{\"InTransit\":{\"lat\":";
    let mid = ",\"lon\":";
    let close = "}}";
    let plen: usize = pre.unicode_len();
    let mlen: usize = mid.unicode_len();
    let elen: usize = close.unicode_len();
    let n: usize = msg.unicode_len();
    if n < plen + mlen + elen + 2 {
        return None;
    }
    let ci: usize = find_from_x(msg, plen, ',');
    if !match_at(msg, 0, plen, pre) {
        return None;
    }
    if !(ci <= n - elen - mlen - 1) {
        return None;
    }
    if !match_at(msg, ci, ci + mlen, mid) {
        return None;
    }
    if !match_at(msg, n - elen, n, close) {
        return None;
    }
    let lat: String = substr_owned(msg, plen, ci);
    let lon: String = substr_owned(msg, ci + mlen, n - elen);
    if !check_json_number(lat.as_str()) {
        return None;
    }
    if !check_json_number(lon.as_str()) {
        return None;
    }
    Some(Position::new(lat, lon))
}

/// A serialized position message parses back to exactly the coordinate
/// literals it was built from.
pub proof fn lemma_parse_position_round_trip(lat: Seq<char>, lon: Seq<char>)
    requires
        is_json_number(lat),
        is_json_number(lon),
    ensures
        parse_position_msg(position_body(lat, lon)) == Some((lat, lon)),
{
    let p = position_prefix();
    let m = lon_infix();
    let e = "}}"@;
    let s = position_body(lat, lon);
    assert(lat.len() >= 1);
    assert(lon.len() >= 1);
    assert(s.len() == p.len() + lat.len() + m.len() + lon.len() + e.len());
    assert(s.subrange(0, p.len() as int) =~= p);
    let t = p.len() + lat.len();
    crate::wire::lemma_json_number_no_comma(lat);
    crate::wire::lemma_find_from(s, p.len() as int, ',');
    reveal_strlit(",\"lon\":");
    assert(m[0] == ',');
    assert(s[t as int] == ',');
    assert(forall|k: int| p.len() <= k < t ==> #[trigger] s[k] == lat[k - p.len()]);
    let ci = find_from(s, p.len() as int, ',');
    if ci < t {
        assert(s[ci] == ',');
        assert(s[ci] == lat[ci - p.len()]);
        assert(false);
    }
    if ci > t {
        assert(s[t as int] != ',');
        assert(false);
    }
    assert(ci == t);
    assert(s.subrange(ci, ci + m.len() as int) =~= m);
    assert(s.subrange(s.len() - e.len(), s.len() as int) =~= e);
    assert(s.subrange(p.len() as int, ci) =~= lat);
    assert(s.subrange(ci + m.len(), s.len() - e.len()) =~= lon);
}

/// Once the order is `Delivered`, every courier message is a schema
/// violation.
pub proof fn lemma_delivered_rejects_courier(msg: Seq<char>)
    ensures
        parse_courier(StateKind::Delivered, msg) is None,
{
}

/// Commands a courier message yields under the schema of `state`: the
/// processor's output when it parses, a single error report back to the
/// courier when it does not.
pub open spec fn courier_commands(state: StateKind, msg: Seq<char>) -> Seq<CommandModel> {
    match parse_courier(state, msg) {
        Some(u) => process_courier_spec(state, u),
        None => seq![CommandModel::CourierError(error_wire())],
    }
}

/// Commands a customer message yields under the schema of `state`.
pub open spec fn customer_commands(state: StateKind, msg: Seq<char>) -> Seq<CommandModel> {
    match parse_customer(state, msg) {
        Some(u) => process_customer_spec(state, u),
        None => seq![CommandModel::CustomerError(error_wire())],
    }
}

/// The per-session update handler: schema-checks inbound text for the
/// state it was built for, runs the processor, and lowers the resulting
/// commands to wire text.
pub struct WebSocketUpdateHandler {
    pub processor: WebSocketUpdateProcessor,
}

impl WebSocketUpdateHandler {
    /// The state whose schema this handler applies.
    pub open spec fn state(&self) -> StateKind {
        self.processor.state
    }

    pub fn new(state: StateKind) -> (r: Self)
        ensures
            r.state() == state,
    {
        Self { processor: WebSocketUpdateProcessor::new(state) }
    }

    pub fn deserialize_courier_update(&mut self, message: &str) -> (r: Option<
        InboundCourierMessage,
    >)
        ensures
            *final(self) == *old(self),
            r.deep_view() == parse_courier(old(self).state(), message@),
    {
        match self.processor.state {
            StateKind::Created => {
                if crate::wire::str_eq(message, "\"TookOrder\"") {
                    Some(
                        InboundCourierMessage::Created(
                            order_created::InboundCourierUpdate::TookOrder,
                        ),
                    )
                } else {
                    None
                }
            },
            StateKind::InTransit => {
                if crate::wire::str_eq(message, "\"Delivered\"") {
                    Some(
                        InboundCourierMessage::InTransit(
                            order_in_transit::InboundCourierUpdate::Delivered,
                        ),
                    )
                } else {
                    match parse_position(message) {
                        Some(p) => Some(
                            InboundCourierMessage::InTransit(
                                order_in_transit::InboundCourierUpdate::InTransit(p),
                            ),
                        ),
                        None => None,
                    }
                }
            },
            StateKind::Delivered => None,
        }
    }

    pub fn deserialize_customer_update(&mut self, message: &str) -> (r: Option<
        InboundCustomerMessage,
    >)
        ensures
            *final(self) == *old(self),
            r.deep_view() == parse_customer(old(self).state(), message@),
    {
        match self.processor.state {
            StateKind::Delivered => {
                if crate::wire::str_eq(message, "\"DeliveryConfirmed\"") {
                    Some(
                        InboundCustomerMessage::Completed(
                            order_completed::InboundCustomerUpdate::DeliveryConfirmed,
                        ),
                    )
                } else {
                    None
                }
            },
            StateKind::Created => None,
            StateKind::InTransit => None,
        }
    }

    /// Wire text of a courier notification body.
    pub fn serialize_courier_update(&self, update: CourierNotice) -> (r: String)
        ensures
            r@ == courier_notice_body(update),
    {
        match update {
            CourierNotice::Completed(order_completed::OutboundCourierUpdate::DeliveryConfirmed) => {
                String::from_str("{\"DeliveryConfirmed\":null}")
            },
        }
    }

    /// Wire text of a customer notification body.
    pub fn serialize_customer_update(&self, update: CustomerNotice) -> (r: String)
        ensures
            r@ == customer_notice_body(update),
    {
        match update {
            CustomerNotice::Created(order_created::OutboundCustomerUpdate::TookOrder) => {
                String::from_str("{\"TookOrder\":null}")
            },
            CustomerNotice::InTransit(order_in_transit::OutboundCustomerUpdate::InTransit(p)) => {
                let mut s: String = String::from_str("{\"InTransit\":{\"lat\":");
                s.append(p.lat.as_str());
                s.append(",\"lon\":");
                s.append(p.lon.as_str());
                s.append("}}");
                proof {
                    assert(s@ =~= position_body(p.lat@, p.lon@));
                }
                s
            },
            CustomerNotice::InTransit(order_in_transit::OutboundCustomerUpdate::OrderNearby(d)) => {
                let mut s: String = String::from_str("{\"OrderNearby\":{\"km\":");
                s.append(d.km.as_str());
                s.append("}}");
                proof {
                    assert(s@ =~= crate::handlers::events::nearby_body(d.km@));
                }
                s
            },
            CustomerNotice::InTransit(order_in_transit::OutboundCustomerUpdate::Delivered) => {
                String::from_str("{\"Delivered\":null}")
            },
        }
    }

    /// Lower a typed command to its wire form; the two views agree.
    pub fn serialize_command(&self, c: crate::handlers::events::TypedCommand) -> (r: Command)
        ensures
            r@ == c@,
    {
        match c {
            crate::handlers::events::TypedCommand::SendCourierNotify(update) => {
                Command::SendCourierNotify(self.serialize_courier_update(update))
            },
            crate::handlers::events::TypedCommand::SendCustomerNotify(update) => {
                Command::SendCustomerNotify(self.serialize_customer_update(update))
            },
            crate::handlers::events::TypedCommand::Transition(t) => Command::Transition(t),
            crate::handlers::events::TypedCommand::ProcessedCustomerUpdate => Command::ProcessedCustomerUpdate,
            crate::handlers::events::TypedCommand::ProcessedCourierUpdate => Command::ProcessedCourierUpdate,
            crate::handlers::events::TypedCommand::CustomerError(e) => Command::CustomerError(e),
            crate::handlers::events::TypedCommand::CourierError(e) => Command::CourierError(e),
            crate::handlers::events::TypedCommand::OrderComplete => Command::OrderComplete,
        }
    }

    /// Handle one raw courier message: schema-check, process, lower.
    pub fn inbound_courier_update(&mut self, message: String) -> (r: Vec<Command>)
        ensures
            *final(self) == *old(self),
            r.deep_view() == courier_commands(old(self).state(), message@),
    {
        match self.deserialize_courier_update(message.as_str()) {
            Some(update) => {
                let typed = self.processor.process_courier_update(update);
                self.lower_commands(typed)
            },
            None => {
                let mut r: Vec<Command> = Vec::new();
                r.push(Command::CourierError(String::from_str("\"Error deserializing update\"")));
                proof {
                    assert(r.deep_view() =~= courier_commands(old(self).state(), message@));
                }
                r
            },
        }
    }

    /// Handle one raw customer message: schema-check, process, lower.
    pub fn inbound_customer_update(&mut self, message: String) -> (r: Vec<Command>)
        ensures
            *final(self) == *old(self),
            r.deep_view() == customer_commands(old(self).state(), message@),
    {
        match self.deserialize_customer_update(message.as_str()) {
            Some(update) => {
                let typed = self.processor.process_customer_update(update);
                self.lower_commands(typed)
            },
            None => {
                let mut r: Vec<Command> = Vec::new();
                r.push(Command::CustomerError(String::from_str("\"Error deserializing update\"")));
                proof {
                    assert(r.deep_view() =~= customer_commands(old(self).state(), message@));
                }
                r
            },
        }
    }

    /// Lower each typed command in order.
    fn lower_commands(&self, mut typed: Vec<crate::handlers::events::TypedCommand>) -> (r: Vec<
        Command,
    >)
        ensures
            r.deep_view() == typed.deep_view(),
    {
        let ghost full = typed.deep_view();
        let mut out: Vec<Command> = Vec::new();
        while typed.len() > 0
            invariant
                out.deep_view() + typed.deep_view() =~= full,
            decreases typed.len(),
        {
            let c = typed.remove(0);
            out.push(self.serialize_command(c));
        }
        proof {
            assert(out.deep_view() =~= full);
        }
        out
    }
}

} // verus!
