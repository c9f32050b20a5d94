//! Constant-product AMM swap engine.
//!
//! Given a pool holding two reserves and a trading fee in basis points, the
//! engine validates a swap request, computes the output amount under the
//! constant-product rule, and enforces the caller's minimum-output bound.
//! The ledger that actually moves tokens is an external collaborator; this
//! crate only decides whether a swap is allowed and what amounts move.

pub mod curve;
pub mod errors;
pub mod laws;
pub mod math;
pub mod orchestrator;
pub mod state;
pub mod validate;
