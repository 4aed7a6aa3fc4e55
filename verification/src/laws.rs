//! What holds of a deposit gate in every state and for every caller, proved
//! of the model that specifies the operations.

use vstd::prelude::*;
use crate::address::{derivation, gate_slot};
use crate::identity::Identity;
use crate::model::{
    after_calls, asks_to_open, check_gate_result, fresh_gate, initialize_records,
    initialize_result, open_at, set_gate_records, set_gate_result, Call, Records,
};
use crate::record::ErrorCode;

verus! {

/// Derivation is deterministic: the same tag and the same deployment, byte
/// for byte, always derive the same address and discriminator, or fail
/// alike. So every operation of a deployment finds the same address.
pub proof fn law_derivation_is_deterministic(
    tag: Seq<u8>,
    other_tag: Seq<u8>,
    deployment: Identity,
    other_deployment: Identity,
)
    requires
        tag == other_tag,
        deployment@ == other_deployment@,
    ensures
        derivation(tag, deployment@) == derivation(other_tag, other_deployment@),
        gate_slot(deployment@) == gate_slot(other_deployment@),
{
}

/// A gate is closed immediately after `initialize` succeeds: its record
/// holds the installed oracle, and `check_gate` answers `GateClosed`.
pub proof fn law_initialize_leaves_gate_closed(
    records: Records,
    deployment: Seq<u8>,
    oracle: Identity,
)
    requires
        initialize_result(records, deployment) is Ok,
    ensures
        ({
            let after = initialize_records(records, deployment, oracle);
            &&& gate_slot(deployment) matches Some(address)
            &&& after.contains_key(address)
            &&& after[address] == fresh_gate(oracle)
            &&& !after[address].is_open
            &&& check_gate_result(after, deployment) == Err::<(), ErrorCode>(
                ErrorCode::GateClosed,
            )
        }),
{
}

/// After `set_gate` succeeds with `new_state`, its gate is open exactly if
/// `new_state` is true, whatever it was before, and its oracle is the one
/// it had.
pub proof fn law_set_gate_sets_the_flag(
    records: Records,
    deployment: Seq<u8>,
    caller: Seq<u8>,
    new_state: bool,
)
    requires
        set_gate_result(records, deployment, caller) is Ok,
    ensures
        ({
            let after = set_gate_records(records, deployment, caller, new_state);
            &&& gate_slot(deployment) matches Some(address)
            &&& after.contains_key(address)
            &&& after[address].is_open == new_state
            &&& after[address].oracle == records[address].oracle
            &&& check_gate_result(after, deployment) is Ok <==> new_state
        }),
{
}

/// A deployment is initialized once: after `initialize` has succeeded with
/// `first`, a second `initialize` fails with `AlreadyInitialized`, whatever
/// oracle it names, and the record stays exactly as the first call left it.
pub proof fn law_initialize_only_once(
    records: Records,
    deployment: Seq<u8>,
    first: Identity,
    second: Identity,
)
    requires
        initialize_result(records, deployment) is Ok,
    ensures
        ({
            let once = initialize_records(records, deployment, first);
            let twice = initialize_records(once, deployment, second);
            &&& initialize_result(once, deployment) == Err::<(), ErrorCode>(
                ErrorCode::AlreadyInitialized,
            )
            &&& twice == once
            &&& gate_slot(deployment) matches Some(address)
            &&& twice[address] == fresh_gate(first)
        }),
{
}

/// Only the oracle sets a gate: `set_gate` on behalf of any identity other
/// than the stored oracle fails with `Unauthorized` and changes nothing.
pub proof fn law_only_the_oracle_sets(
    records: Records,
    deployment: Seq<u8>,
    caller: Seq<u8>,
    new_state: bool,
)
    requires
        gate_slot(deployment) is Some,
        records.contains_key(gate_slot(deployment)->0),
        records[gate_slot(deployment)->0].oracle@ != caller,
    ensures
        set_gate_result(records, deployment, caller) == Err::<(), ErrorCode>(
            ErrorCode::Unauthorized,
        ),
        set_gate_records(records, deployment, caller, new_state) == records,
{
}

/// `check_gate` succeeds if and only if the deployment's gate exists and is
/// open; a closed one answers `GateClosed` and a missing one
/// `NotInitialized`. It has no records to leave behind: it only reads.
pub proof fn law_check_gate_reads_the_flag(records: Records, deployment: Seq<u8>)
    ensures
        ({
            let answer = check_gate_result(records, deployment);
            let exists = gate_slot(deployment) is Some && records.contains_key(
                gate_slot(deployment)->0,
            );
            &&& answer is Ok <==> exists && records[gate_slot(deployment)->0].is_open
            &&& answer == Err::<(), ErrorCode>(ErrorCode::GateClosed) <==> exists
                && !records[gate_slot(deployment)->0].is_open
            &&& answer == Err::<(), ErrorCode>(ErrorCode::NotInitialized) <==> !exists
        }),
{
}

/// No operation removes a record or changes its oracle: a record that exists
/// at any address before `initialize` or `set_gate` exists there afterwards
/// with the oracle it had, and `initialize` leaves it as it was.
pub proof fn law_records_persist(
    records: Records,
    deployment: Seq<u8>,
    oracle: Identity,
    caller: Seq<u8>,
    new_state: bool,
    address: Seq<u8>,
)
    requires
        records.contains_key(address),
    ensures
        ({
            let initialized = initialize_records(records, deployment, oracle);
            let set = set_gate_records(records, deployment, caller, new_state);
            &&& initialized.contains_key(address)
            &&& initialized[address] == records[address]
            &&& set.contains_key(address)
            &&& set[address].oracle == records[address].oracle
        }),
{
}

/// A failed operation changes nothing.
pub proof fn law_failures_change_nothing(
    records: Records,
    deployment: Seq<u8>,
    oracle: Identity,
    caller: Seq<u8>,
    new_state: bool,
)
    ensures
        initialize_result(records, deployment) is Err ==> initialize_records(
            records,
            deployment,
            oracle,
        ) == records,
        set_gate_result(records, deployment, caller) is Err ==> set_gate_records(
            records,
            deployment,
            caller,
            new_state,
        ) == records,
{
}

/// After any sequence of calls, a `set_gate` that succeeds with `new_state`
/// leaves its gate open exactly if `new_state` is true.
pub proof fn law_flag_is_the_value_last_set(
    records: Records,
    calls: Seq<Call>,
    deployment: Seq<u8>,
    caller: Seq<u8>,
    new_state: bool,
)
    requires
        set_gate_result(after_calls(records, calls), deployment, caller) is Ok,
    ensures
        ({
            let last = Call::SetGate { deployment, caller, new_state };
            &&& gate_slot(deployment) matches Some(address)
            &&& open_at(after_calls(records, calls.push(last)), address) == new_state
        }),
{
    let last = Call::SetGate { deployment, caller, new_state };
    assert(calls.push(last).drop_last() =~= calls);
    assert(calls.push(last).last() == last);
}

/// After any sequence of calls, an `initialize` that succeeds leaves its
/// gate in place and closed.
pub proof fn law_flag_is_closed_after_initialize(
    records: Records,
    calls: Seq<Call>,
    deployment: Seq<u8>,
    oracle: Identity,
)
    requires
        initialize_result(after_calls(records, calls), deployment) is Ok,
    ensures
        ({
            let last = Call::Initialize { deployment, oracle };
            &&& gate_slot(deployment) matches Some(address)
            &&& after_calls(records, calls.push(last)).contains_key(address)
            &&& !open_at(after_calls(records, calls.push(last)), address)
        }),
{
    let last = Call::Initialize { deployment, oracle };
    assert(calls.push(last).drop_last() =~= calls);
    assert(calls.push(last).last() == last);
}

/// No sequence of calls, by whatever callers and in whatever deployments,
/// removes a record or changes its oracle.
pub proof fn law_records_outlive_every_sequence(
    records: Records,
    calls: Seq<Call>,
    address: Seq<u8>,
)
    requires
        records.contains_key(address),
    ensures
        after_calls(records, calls).contains_key(address),
        after_calls(records, calls)[address].oracle == records[address].oracle,
    decreases calls.len(),
{
    if calls.len() > 0 {
        law_records_outlive_every_sequence(records, calls.drop_last(), address);
    }
}

/// A gate fails closed: where no gate is open at `address`, none is open
/// there after any sequence of calls of which none asks to open it. Neither
/// `initialize` nor `check_gate` nor a `set_gate` elsewhere opens a gate.
pub proof fn law_closed_until_asked_to_open(records: Records, calls: Seq<Call>, address: Seq<u8>)
    requires
        !open_at(records, address),
        forall|i: int| 0 <= i < calls.len() ==> !asks_to_open(#[trigger] calls[i], address),
    ensures
        !open_at(after_calls(records, calls), address),
    decreases calls.len(),
{
    if calls.len() > 0 {
        let earlier = calls.drop_last();
        assert forall|i: int| 0 <= i < earlier.len() implies !asks_to_open(
            #[trigger] earlier[i],
            address,
        ) by {
            assert(earlier[i] == calls[i]);
        }
        law_closed_until_asked_to_open(records, earlier, address);
        assert(!asks_to_open(calls[calls.len() - 1], address));
    }
}

/// Only the oracle opens a gate: a closed gate stays closed through any
/// sequence of calls in which every call that asks to open it is made on
/// behalf of someone other than its oracle.
pub proof fn law_only_the_oracle_opens(records: Records, calls: Seq<Call>, address: Seq<u8>)
    requires
        records.contains_key(address),
        !records[address].is_open,
        forall|i: int|
            0 <= i < calls.len() && asks_to_open(#[trigger] calls[i], address)
                ==> calls[i]->SetGate_caller != records[address].oracle@,
    ensures
        after_calls(records, calls).contains_key(address),
        !after_calls(records, calls)[address].is_open,
        after_calls(records, calls)[address].oracle == records[address].oracle,
    decreases calls.len(),
{
    if calls.len() > 0 {
        let earlier = calls.drop_last();
        assert forall|i: int|
            0 <= i < earlier.len() && asks_to_open(
                #[trigger] earlier[i],
                address,
            ) implies earlier[i]->SetGate_caller != records[address].oracle@ by {
            assert(earlier[i] == calls[i]);
        }
        law_only_the_oracle_opens(records, earlier, address);
        let last = calls[calls.len() - 1];
        assert(asks_to_open(last, address) ==> last->SetGate_caller != records[address].oracle@);
    }
}

} // verus!
