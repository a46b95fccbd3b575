//! A small decentralized voting core: time-bounded binary proposals, one vote
//! per (proposal, voter) pair, creator-only closing after the deadline.
//!
//! The host ledger supplies the trusted clock reading and the authenticated
//! caller identities; every handler here is one atomic transaction over the
//! system's records.

pub mod errors;
pub mod events;
pub mod keys;
pub mod state;
pub mod system;
