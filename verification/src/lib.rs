//! A factory that predicts the address of a contract instance before it is
//! created, and builds the creation instruction for it.
//!
//! The factory keeps a single configuration record (the owner identity and
//! the identifier of the code template it instantiates). Each deployment
//! reads that record, derives the target address deterministically from the
//! template's content checksum, the factory's own canonical identity and a
//! caller-supplied salt, and returns the fully-formed creation instruction
//! together with observability attributes.

pub mod contract;
pub mod decimal;
pub mod derivation;
pub mod errors;
pub mod msg;
pub mod response;
pub mod state;
