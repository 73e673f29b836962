pub mod error;
pub mod position;
pub mod location_log;
pub mod updates;
