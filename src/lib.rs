//! A hub that keeps many client connections in step with one shared text document.
//!
//! `session` decides what each inbound frame and heartbeat tick leads to; `registry`
//! tracks the live connections and who receives a broadcast; `document` holds the
//! shared text; `heartbeat` supervises liveness; `backup` recognises backup requests
//! and names snapshot files.

pub mod backup;
pub mod document;
pub mod heartbeat;
pub mod registry;
pub mod session;
