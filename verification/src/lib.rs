//! Real-time delivery-order session tracking.
//!
//! The library is the verified core of a service that relays structured
//! status and geolocation messages between a customer and a courier for
//! the lifetime of one delivery order.  It holds the wire-format codec,
//! the per-state message interpretation rules, the session state machine,
//! and the admission controller that bounds how many sessions are live
//! at once.  Transport (websockets, the event broker) lives outside the
//! library and hands it plain text messages.

pub mod handlers;
pub mod jwt_auth;
pub mod models;
pub mod wire;
