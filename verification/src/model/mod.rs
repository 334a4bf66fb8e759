pub mod commands;
pub mod discord;
pub mod events;
pub mod other;
pub mod payload;

pub use other::CloseCodes;
pub use payload::{EventName, OpCode, Payload};
