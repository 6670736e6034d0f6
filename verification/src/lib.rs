//! Verified core of a ledger load-generation tool: it funds a pool of
//! ephemeral accounts from a single funder, then drives an unbounded spam
//! phase that fires batches of payload-carrying self-transfers on a fixed
//! cadence. The signing, RPC transport and payload encoding are external
//! collaborators; this crate holds the state, scheduling and failure-handling
//! logic and proves its contracts.

pub mod config;
pub mod engine;
pub mod funding;
mod rng;
pub mod sched;
pub mod tx;
