//! A token-issuance registry.
//!
//! The library is the verified core of an on-ledger module that charges a
//! fixed fee for creating a fungible token, delegates the deployment to a
//! templated token module, and records the mapping from each token symbol to
//! the deployed token's address.  The host execution environment (storage,
//! address validation, message dispatch) stays outside; every entry point here
//! is a function from explicit state and plain values to new state, emitted
//! instructions and typed errors.

pub mod contract;
pub mod error;
pub mod laws;
pub mod msg;
pub mod order;
pub mod seq_util;
pub mod state;
