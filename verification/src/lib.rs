//! Verified core of the Shadow session store: content digests, record
//! identifiers and timestamps, the rows that the store writes and reads,
//! schema migration decisions, export control and the health check.

pub mod hex;
pub mod digest;
pub mod ident;
pub mod clock;
pub mod session;
pub mod migration;
pub mod export;
pub mod json;
pub mod doctor;
pub mod chat;
