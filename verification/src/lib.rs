//! A single shared deposit gate: an open/closed flag that enables or disables
//! a dependent operation, and the one oracle that may flip it.
//!
//! Each deployment has exactly one record, found by every caller at an
//! address derived from a fixed tag and the deployment's identity. The record
//! is created once, closed; only its oracle sets it; anyone may check it, and
//! the check fails unless it is open.
//!
//! - `identity`: the identities of callers, deployments and addresses.
//! - `record`: the record and the failures of the operations.
//! - `address`: the derivation of a record's address.
//! - `store`: a keyed store of records with create-if-absent, read and
//!   write-if-exists.
//! - `model`: the operations, one call or many, as functions on a map of
//!   records.
//! - `controller`: the operations themselves, `initialize`, `set_gate` and
//!   `check_gate`.
//! - `laws`: what holds of the operations in every state.

pub mod address;
pub mod controller;
pub mod identity;
pub mod laws;
pub mod model;
pub mod record;
pub mod store;

pub use address::{address_from_search, derive_address, gate_address, DerivedAddress, GATE_TAG};
pub use controller::{
    check_gate, check_gate_at, initialize, initialize_at, set_gate, set_gate_at, CheckGate,
    Initialize, SetGate,
};
pub use identity::Identity;
pub use record::{DepositGate, ErrorCode};
pub use store::GateStore;
