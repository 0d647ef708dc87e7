//! The trust boundary of a cross-chain asset bridge: a key that is set once,
//! a pause switch, per-domain nonces, outbound deposits that charge both the
//! fee and the amount or neither, and inbound batches signed by the bridge key
//! that execute each proposal at most once.

pub mod types;
pub mod holdings;
pub mod nonces;
pub mod payload;
pub mod config;
pub mod bridge;
pub mod guarantees;
