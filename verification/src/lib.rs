//! Session layer of a push gateway: the close-code registry, the wire
//! envelope and its codec, and the per-connection lifecycle state machine.

pub mod ident;
pub mod json;
pub mod model;
pub mod session;
pub mod store;
pub mod utils;
