//! The telemetry side channel: position updates observed in transit are
//! additionally forwarded, keyed by order, to an append-only location
//! topic.  This path is decoupled from the session's own outbound
//! notifications; the boundary may lag or drop it without affecting the
//! session.

use vstd::prelude::*;
use crate::handlers::events::{Party, StateKind};
use crate::handlers::handler::{parse_position, parse_position_msg};
use crate::models::location_log::LocationLog;

verus! {

/// The telemetry record one inbound message yields: the coordinates of
/// a position update sent by the courier while the order is in transit,
/// and nothing otherwise.
pub open spec fn telemetry_of(state: StateKind, party: Party, msg: Seq<char>) -> Option<
    (Seq<char>, Seq<char>),
> {
    if party == Party::Courier && state == StateKind::InTransit {
        parse_position_msg(msg)
    } else {
        None
    }
}

/// Collector for the telemetry side channel.
pub struct LocationLogger {}

impl LocationLogger {
    /// The telemetry record for one inbound message, if any, matching
    /// [`telemetry_of`].
    pub fn position_telemetry(state: StateKind, party: Party, message: &str) -> (r: Option<
        LocationLog,
    >)
        ensures
            r.deep_view() == telemetry_of(state, party, message@),
    {
        match (party, state) {
            (Party::Courier, StateKind::InTransit) => {
                match parse_position(message) {
                    Some(p) => Some(LocationLog::new(p.lat, p.lon)),
                    None => None,
                }
            },
            _ => None,
        }
    }
}

} // verus!
