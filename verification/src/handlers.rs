pub mod events;
pub mod event_actor;
pub mod handler;
pub mod incoming_order_processor;
pub mod location_logger;
pub mod processor;
pub mod websocket_actor;
