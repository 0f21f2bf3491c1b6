//! Server-side core of the OCPP-J RPC framework: the three frame kinds of the
//! wire protocol, their JSON-array encoding, the table of actions, the
//! bookkeeping that pairs responses with requests, and the engine that decides
//! what is sent back for each inbound frame.

pub mod dispatch;
pub mod errors;
pub mod frame;
pub mod json;
pub mod registry;
pub mod text;
pub mod tracker;
