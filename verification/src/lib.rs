//! A full-duplex session over one streaming connection, as a sequential core.
//!
//! The session's record (status, history, outbound queue) and every decision
//! taken on it live here; each operation is one atomic step on the record.
//! Whoever runs the network and the threads keeps the record behind a single
//! lock and calls one operation at a time.

mod clock;
pub mod events;
pub mod header;
pub mod laws;
pub mod message;
pub mod sender;
pub mod session;
pub mod status;
