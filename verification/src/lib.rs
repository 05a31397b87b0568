//! Catch-up planning and inclusion-proof assembly for bridging a
//! proof-of-stake home chain to a remote verifier contract.
//!
//! The crate decides which epoch checkpoints a remote verifier must ingest
//! before it can trust a target block, builds the Merkle proof binding a
//! transaction to its block, assembles the resulting verification bundles
//! into a dependency-ordered plan, and sequences that plan as a state
//! machine whose transitions only fire once the verifier's trusted height
//! is observed to advance.

pub mod coins;
pub mod config;
pub mod epoch;
pub mod errors;
pub mod fetch;
pub mod hexcode;
pub mod merkle;
pub mod plan;
pub mod sequencer;
