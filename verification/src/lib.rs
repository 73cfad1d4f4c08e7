//! Verified core of a proof-of-work mining pipeline.
//!
//! The library models the pipeline that turns a pool of wallets into
//! confirmed ledger transactions: a nonce-search solver, a batching
//! collector, a transaction-plan builder with its byte codec, a
//! send-and-confirm race tracker, and a result router. Network and task
//! scheduling live outside; the library states and proves what each
//! decision step computes.

pub mod bus;
pub mod codec;
pub mod collector;
pub mod digest;
pub mod engine;
pub mod messages;
pub mod plan;
pub mod router;
pub mod solver;
