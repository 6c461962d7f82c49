//! The message fabric of a host for stateful, event-driven room services:
//! client ids and recipients, the per-room routing state, the service
//! actor's dispatch and timer rules, and the checks of the WebAssembly host.

pub mod assoc;
pub mod ids;
pub mod messages;
pub mod room;
pub mod service;
pub mod wasm;
