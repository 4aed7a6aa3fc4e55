//! The controller of a deposit gate: the three operations on its record and
//! the contexts in which they run.

use vstd::prelude::*;
use crate::address::gate_address;
use crate::identity::Identity;
use crate::model::{
    check_gate_at_result, check_gate_result, initialize_at_records, initialize_at_result,
    initialize_records, initialize_result, set_gate_at_records, set_gate_at_result,
    set_gate_records, set_gate_result,
};
use crate::record::{DepositGate, ErrorCode};
use crate::store::GateStore;

verus! {

/// The context of `initialize`: the deployment, the caller who pays for the
/// new record, and the store that will hold it.
pub struct Initialize {
    pub program_id: Identity,
    pub authority: Identity,
    pub store: GateStore,
}

/// The context of `set_gate`: the deployment, the verified caller who claims
/// to be the oracle, and the store that holds the record.
pub struct SetGate {
    pub program_id: Identity,
    pub oracle: Identity,
    pub store: GateStore,
}

/// The context of `check_gate`: the deployment and the store that holds the
/// record.
pub struct CheckGate {
    pub program_id: Identity,
    pub store: GateStore,
}

/// Creates a gate's record at `address`: closed, with `oracle` installed.
/// Fails with `AlreadyInitialized`, and changes nothing, where a record
/// already lives there.
pub fn initialize_at(store: &mut GateStore, address: Identity, oracle: Identity) -> (outcome:
    Result<(), ErrorCode>)
    ensures
        outcome == initialize_at_result(old(store)@, address@),
        final(store)@ == initialize_at_records(old(store)@, address@, oracle),
{
    store.create(address, DepositGate { is_open: false, oracle })
}

/// Sets a gate at `address` to `new_state` on behalf of `caller`. Fails
/// with `NotInitialized` where no record lives there and with `Unauthorized`
/// where `caller` is not the record's oracle; a failure changes nothing. The
/// oracle itself is never changed.
pub fn set_gate_at(
    store: &mut GateStore,
    address: &Identity,
    caller: &Identity,
    new_state: bool,
) -> (outcome: Result<(), ErrorCode>)
    ensures
        outcome == set_gate_at_result(old(store)@, address@, caller@),
        final(store)@ == set_gate_at_records(old(store)@, address@, caller@, new_state),
{
    match store.read(address) {
        None => Err(ErrorCode::NotInitialized),
        Some(record) => {
            if !caller.same(&record.oracle) {
                return Err(ErrorCode::Unauthorized);
            }
            store.write(address, DepositGate { is_open: new_state, oracle: record.oracle })
        },
    }
}

/// Succeeds where a gate at `address` is open. Fails with `NotInitialized`
/// where no record lives there and with `GateClosed` where it is closed.
pub fn check_gate_at(store: &GateStore, address: &Identity) -> (outcome: Result<(), ErrorCode>)
    ensures
        outcome == check_gate_at_result(store@, address@),
{
    match store.read(address) {
        None => Err(ErrorCode::NotInitialized),
        Some(record) => {
            if record.is_open {
                Ok(())
            } else {
                Err(ErrorCode::GateClosed)
            }
        },
    }
}

/// Creates the deployment's gate, closed, with `oracle` as the one
/// identity that may set it. Fails with `AddressDerivationError` where the
/// deployment has no gate address and with `AlreadyInitialized` where its
/// gate exists; a failure changes nothing.
pub fn initialize(ctx: &mut Initialize, oracle: Identity) -> (outcome: Result<(), ErrorCode>)
    ensures
        outcome == initialize_result(old(ctx).store@, old(ctx).program_id@),
        final(ctx).store@ == initialize_records(old(ctx).store@, old(ctx).program_id@, oracle),
        final(ctx).program_id == old(ctx).program_id,
        final(ctx).authority == old(ctx).authority,
{
    match gate_address(&ctx.program_id) {
        Ok(derived) => initialize_at(&mut ctx.store, derived.address, oracle),
        Err(e) => Err(e),
    }
}

/// Sets the deployment's gate to `new_state` on behalf of the caller
/// `ctx.oracle`. Fails with `NotInitialized` where the deployment has no
/// gate and with `Unauthorized` where the caller is not its oracle; a
/// failure changes nothing.
pub fn set_gate(ctx: &mut SetGate, new_state: bool) -> (outcome: Result<(), ErrorCode>)
    ensures
        outcome == set_gate_result(old(ctx).store@, old(ctx).program_id@, old(ctx).oracle@),
        final(ctx).store@ == set_gate_records(
            old(ctx).store@,
            old(ctx).program_id@,
            old(ctx).oracle@,
            new_state,
        ),
        final(ctx).program_id == old(ctx).program_id,
        final(ctx).oracle == old(ctx).oracle,
{
    match gate_address(&ctx.program_id) {
        Ok(derived) => {
            let caller = ctx.oracle;
            set_gate_at(&mut ctx.store, &derived.address, &caller, new_state)
        },
        Err(_) => Err(ErrorCode::NotInitialized),
    }
}

/// Succeeds where the deployment's gate is open, and reads only. Fails
/// with `NotInitialized` where the deployment has no gate and with
/// `GateClosed` where its gate is closed.
pub fn check_gate(ctx: &CheckGate) -> (outcome: Result<(), ErrorCode>)
    ensures
        outcome == check_gate_result(ctx.store@, ctx.program_id@),
{
    match gate_address(&ctx.program_id) {
        Ok(derived) => check_gate_at(&ctx.store, &derived.address),
        Err(_) => Err(ErrorCode::NotInitialized),
    }
}

} // verus!
