//! Live-sync orchestration core of a blockchain execution client.
//!
//! The crate receives consensus-layer requests (new payloads to execute,
//! fork-choice updates to apply) and advances the canonical chain, requesting
//! missing ancestor blocks from the network when a request cannot be satisfied
//! locally. The block/state tree manager and the network block downloader are
//! external collaborators, reached only through narrow mailbox interfaces; the
//! logic verified here is how requests, downloads and tree outcomes are
//! sequenced and reconciled.

pub mod builder;
pub mod engine;
pub mod events;
pub mod handler;
pub mod hardfork;
pub mod laws;
