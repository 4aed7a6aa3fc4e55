//! A deposit gate as a state machine over a map of records: what each
//! operation answers and what it leaves behind. The executable operations
//! are specified by these functions, and the laws are proved of them.

use vstd::prelude::*;
use crate::address::gate_slot;
use crate::identity::Identity;
use crate::record::{DepositGate, ErrorCode};

verus! {

/// The records of a store, keyed by the bytes of their addresses.
pub type Records = Map<Seq<u8>, DepositGate>;

/// The record that initialization creates: closed, with `oracle` installed.
pub open spec fn fresh_gate(oracle: Identity) -> DepositGate {
    DepositGate { is_open: false, oracle }
}

/// The answer of initializing a gate at `address`.
pub open spec fn initialize_at_result(records: Records, address: Seq<u8>) -> Result<(), ErrorCode> {
    if records.contains_key(address) {
        Err(ErrorCode::AlreadyInitialized)
    } else {
        Ok(())
    }
}

/// The records after initializing a gate at `address` with `oracle`.
pub open spec fn initialize_at_records(
    records: Records,
    address: Seq<u8>,
    oracle: Identity,
) -> Records {
    if records.contains_key(address) {
        records
    } else {
        records.insert(address, fresh_gate(oracle))
    }
}

/// The answer of setting a gate at `address` on behalf of `caller`.
pub open spec fn set_gate_at_result(records: Records, address: Seq<u8>, caller: Seq<u8>) -> Result<
    (),
    ErrorCode,
> {
    if !records.contains_key(address) {
        Err(ErrorCode::NotInitialized)
    } else if records[address].oracle@ != caller {
        Err(ErrorCode::Unauthorized)
    } else {
        Ok(())
    }
}

/// The records after setting a gate at `address` to `new_state` on behalf
/// of `caller`.
pub open spec fn set_gate_at_records(
    records: Records,
    address: Seq<u8>,
    caller: Seq<u8>,
    new_state: bool,
) -> Records {
    if set_gate_at_result(records, address, caller) is Ok {
        records.insert(
            address,
            DepositGate { is_open: new_state, oracle: records[address].oracle },
        )
    } else {
        records
    }
}

/// The answer of checking a gate at `address`.
pub open spec fn check_gate_at_result(records: Records, address: Seq<u8>) -> Result<(), ErrorCode> {
    if !records.contains_key(address) {
        Err(ErrorCode::NotInitialized)
    } else if records[address].is_open {
        Ok(())
    } else {
        Err(ErrorCode::GateClosed)
    }
}

/// The answer of `initialize` within `deployment`.
pub open spec fn initialize_result(records: Records, deployment: Seq<u8>) -> Result<(), ErrorCode> {
    match gate_slot(deployment) {
        Some(address) => initialize_at_result(records, address),
        None => Err(ErrorCode::AddressDerivationError),
    }
}

/// The records after `initialize` within `deployment`.
pub open spec fn initialize_records(
    records: Records,
    deployment: Seq<u8>,
    oracle: Identity,
) -> Records {
    match gate_slot(deployment) {
        Some(address) => initialize_at_records(records, address, oracle),
        None => records,
    }
}

/// The answer of `set_gate` within `deployment` on behalf of `caller`.
pub open spec fn set_gate_result(records: Records, deployment: Seq<u8>, caller: Seq<u8>) -> Result<
    (),
    ErrorCode,
> {
    match gate_slot(deployment) {
        Some(address) => set_gate_at_result(records, address, caller),
        None => Err(ErrorCode::NotInitialized),
    }
}

/// The records after `set_gate` within `deployment` on behalf of `caller`.
pub open spec fn set_gate_records(
    records: Records,
    deployment: Seq<u8>,
    caller: Seq<u8>,
    new_state: bool,
) -> Records {
    match gate_slot(deployment) {
        Some(address) => set_gate_at_records(records, address, caller, new_state),
        None => records,
    }
}

/// The answer of `check_gate` within `deployment`.
pub open spec fn check_gate_result(records: Records, deployment: Seq<u8>) -> Result<(), ErrorCode> {
    match gate_slot(deployment) {
        Some(address) => check_gate_at_result(records, address),
        None => Err(ErrorCode::NotInitialized),
    }
}

/// One call of an operation, with the deployment it runs in and what it is
/// called with.
pub enum Call {
    Initialize { deployment: Seq<u8>, oracle: Identity },
    SetGate { deployment: Seq<u8>, caller: Seq<u8>, new_state: bool },
    CheckGate { deployment: Seq<u8> },
}

/// The records after one call, whether it succeeds or fails.
pub open spec fn after_call(records: Records, call: Call) -> Records {
    match call {
        Call::Initialize { deployment, oracle } => initialize_records(records, deployment, oracle),
        Call::SetGate { deployment, caller, new_state } => set_gate_records(
            records,
            deployment,
            caller,
            new_state,
        ),
        Call::CheckGate { deployment } => records,
    }
}

/// The records after a sequence of calls, made one after the other.
pub open spec fn after_calls(records: Records, calls: Seq<Call>) -> Records
    decreases calls.len(),
{
    if calls.len() == 0 {
        records
    } else {
        after_call(after_calls(records, calls.drop_last()), calls.last())
    }
}

/// Whether the records hold an open gate at `address`.
pub open spec fn open_at(records: Records, address: Seq<u8>) -> bool {
    records.contains_key(address) && records[address].is_open
}

/// Whether `call` asks to open what lives at `address`.
pub open spec fn asks_to_open(call: Call, address: Seq<u8>) -> bool {
    match call {
        Call::SetGate { deployment, caller, new_state } => new_state && gate_slot(deployment)
            == Some(address),
        _ => false,
    }
}

} // verus!
