//! The persisted record of a deposit gate and the failures of its operations.

use vstd::prelude::*;
use crate::identity::Identity;

verus! {

/// The record of a deposit gate: whether the dependent operation is
/// permitted, and the one identity that may change that.
#[derive(Clone, Copy, Debug, PartialEq, Eq)]
pub struct DepositGate {
    pub is_open: bool,
    pub oracle: Identity,
}

/// Why an operation on a deposit gate failed. None of these is retried: each
/// tells the caller of a mistake or of a missing permission.
#[derive(Clone, Copy, Debug, PartialEq, Eq, Structural)]
pub enum ErrorCode {
    /// No address could be derived for the record.
    AddressDerivationError,
    /// A record already occupies the derived address.
    AlreadyInitialized,
    /// No record exists at the derived address.
    NotInitialized,
    /// The caller is not the oracle stored in the record.
    Unauthorized,
    /// The deposit gate is closed.
    GateClosed,
}

} // verus!
