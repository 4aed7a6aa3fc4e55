use deposit_gate::{
    check_gate, check_gate_at, gate_address, initialize, initialize_at, set_gate, set_gate_at,
    CheckGate, DepositGate, ErrorCode, GateStore, Identity, Initialize, SetGate,
};

fn program() -> Identity {
    Identity::new([
        110, 132, 162, 140, 84, 7, 215, 51, 78, 241, 176, 95, 131, 36, 233, 230, 59, 123, 18, 147,
        213, 237, 200, 48, 116, 101, 146, 228, 49, 12, 137, 251,
    ])
}

fn oracle() -> Identity {
    Identity::new([1u8; 32])
}

fn stranger() -> Identity {
    Identity::new([2u8; 32])
}

fn payer() -> Identity {
    Identity::new([3u8; 32])
}

fn slot() -> Identity {
    gate_address(&program()).unwrap().address
}

fn initialized_store(installed: Identity) -> GateStore {
    let mut ctx = Initialize { program_id: program(), authority: payer(), store: GateStore::new() };
    assert_eq!(initialize(&mut ctx, installed), Ok(()));
    ctx.store
}

fn run_set_gate(store: GateStore, caller: Identity, new_state: bool) -> (GateStore, Result<(), ErrorCode>) {
    let mut ctx = SetGate { program_id: program(), oracle: caller, store };
    let outcome = set_gate(&mut ctx, new_state);
    (ctx.store, outcome)
}

fn run_check_gate(store: GateStore) -> (GateStore, Result<(), ErrorCode>) {
    let ctx = CheckGate { program_id: program(), store };
    let outcome = check_gate(&ctx);
    (ctx.store, outcome)
}

#[test]
fn gate_lifecycle_scenario() {
    let store = initialized_store(oracle());
    let (store, checked) = run_check_gate(store);
    assert_eq!(checked, Err(ErrorCode::GateClosed));

    let (store, set) = run_set_gate(store, oracle(), true);
    assert_eq!(set, Ok(()));
    let (store, checked) = run_check_gate(store);
    assert_eq!(checked, Ok(()));

    let (store, set) = run_set_gate(store, stranger(), true);
    assert_eq!(set, Err(ErrorCode::Unauthorized));
    let (store, checked) = run_check_gate(store);
    assert_eq!(checked, Ok(()));
    assert_eq!(store.read(&slot()), Some(DepositGate { is_open: true, oracle: oracle() }));
}

#[test]
fn initialize_creates_a_closed_gate_at_the_derived_address() {
    let store = initialized_store(oracle());
    assert_eq!(store.read(&slot()), Some(DepositGate { is_open: false, oracle: oracle() }));
    assert_eq!(store.read(&program()), None);
    assert_eq!(store.read(&oracle()), None);
}

#[test]
fn initialize_keeps_the_context() {
    let mut ctx = Initialize { program_id: program(), authority: payer(), store: GateStore::new() };
    assert_eq!(initialize(&mut ctx, oracle()), Ok(()));
    assert_eq!(ctx.program_id, program());
    assert_eq!(ctx.authority, payer());
}

#[test]
fn second_initialize_fails_and_keeps_the_record() {
    let store = initialized_store(oracle());
    let mut again = Initialize { program_id: program(), authority: stranger(), store };
    assert_eq!(initialize(&mut again, stranger()), Err(ErrorCode::AlreadyInitialized));
    assert_eq!(
        again.store.read(&slot()),
        Some(DepositGate { is_open: false, oracle: oracle() })
    );
}

#[test]
fn second_initialize_fails_on_an_open_gate_too() {
    let store = initialized_store(oracle());
    let (store, set) = run_set_gate(store, oracle(), true);
    assert_eq!(set, Ok(()));
    let mut again = Initialize { program_id: program(), authority: payer(), store };
    assert_eq!(initialize(&mut again, oracle()), Err(ErrorCode::AlreadyInitialized));
    assert_eq!(again.store.read(&slot()), Some(DepositGate { is_open: true, oracle: oracle() }));
}

#[test]
fn set_gate_sets_the_flag_to_each_value() {
    let store = initialized_store(oracle());
    let (store, set) = run_set_gate(store, oracle(), true);
    assert_eq!(set, Ok(()));
    assert_eq!(store.read(&slot()), Some(DepositGate { is_open: true, oracle: oracle() }));
    let (store, set) = run_set_gate(store, oracle(), true);
    assert_eq!(set, Ok(()));
    assert_eq!(store.read(&slot()), Some(DepositGate { is_open: true, oracle: oracle() }));
    let (store, set) = run_set_gate(store, oracle(), false);
    assert_eq!(set, Ok(()));
    assert_eq!(store.read(&slot()), Some(DepositGate { is_open: false, oracle: oracle() }));
    let (store, set) = run_set_gate(store, oracle(), false);
    assert_eq!(set, Ok(()));
    assert_eq!(store.read(&slot()), Some(DepositGate { is_open: false, oracle: oracle() }));
    let (_, checked) = run_check_gate(store);
    assert_eq!(checked, Err(ErrorCode::GateClosed));
}

#[test]
fn set_gate_keeps_the_context() {
    let store = initialized_store(oracle());
    let mut ctx = SetGate { program_id: program(), oracle: oracle(), store };
    assert_eq!(set_gate(&mut ctx, true), Ok(()));
    assert_eq!(ctx.program_id, program());
    assert_eq!(ctx.oracle, oracle());
}

#[test]
fn set_gate_by_a_stranger_is_unauthorized() {
    let store = initialized_store(oracle());
    let (store, set) = run_set_gate(store, stranger(), true);
    assert_eq!(set, Err(ErrorCode::Unauthorized));
    assert_eq!(store.read(&slot()), Some(DepositGate { is_open: false, oracle: oracle() }));
}

#[test]
fn set_gate_by_the_initializer_is_unauthorized() {
    let store = initialized_store(oracle());
    let (store, set) = run_set_gate(store, payer(), true);
    assert_eq!(set, Err(ErrorCode::Unauthorized));
    let (store, set) = run_set_gate(store, program(), true);
    assert_eq!(set, Err(ErrorCode::Unauthorized));
    assert_eq!(store.read(&slot()), Some(DepositGate { is_open: false, oracle: oracle() }));
}

#[test]
fn set_gate_by_a_nearly_equal_identity_is_unauthorized() {
    let store = initialized_store(oracle());
    let mut bytes = [1u8; 32];
    bytes[31] = 0;
    let (store, set) = run_set_gate(store, Identity::new(bytes), true);
    assert_eq!(set, Err(ErrorCode::Unauthorized));
    assert_eq!(store.read(&slot()), Some(DepositGate { is_open: false, oracle: oracle() }));
}

#[test]
fn set_gate_before_initialize_is_not_initialized() {
    let (store, set) = run_set_gate(GateStore::new(), oracle(), true);
    assert_eq!(set, Err(ErrorCode::NotInitialized));
    assert_eq!(store.read(&slot()), None);
}

#[test]
fn check_gate_before_initialize_is_not_initialized() {
    let (store, checked) = run_check_gate(GateStore::new());
    assert_eq!(checked, Err(ErrorCode::NotInitialized));
    assert_eq!(store.read(&slot()), None);
}

#[test]
fn check_gate_succeeds_exactly_on_an_open_gate() {
    let store = initialized_store(oracle());
    let (store, checked) = run_check_gate(store);
    assert_eq!(checked, Err(ErrorCode::GateClosed));
    let (store, _) = run_set_gate(store, oracle(), true);
    let (store, checked) = run_check_gate(store);
    assert_eq!(checked, Ok(()));
    let (store, _) = run_set_gate(store, oracle(), false);
    let (_, checked) = run_check_gate(store);
    assert_eq!(checked, Err(ErrorCode::GateClosed));
}

#[test]
fn check_gate_leaves_the_record_as_it_was() {
    let store = initialized_store(oracle());
    let (store, _) = run_set_gate(store, oracle(), true);
    let before = store.read(&slot());
    let (store, checked) = run_check_gate(store);
    assert_eq!(checked, Ok(()));
    assert_eq!(store.read(&slot()), before);
    let (store, _) = run_set_gate(store, oracle(), false);
    let before = store.read(&slot());
    let (store, checked) = run_check_gate(store);
    assert_eq!(checked, Err(ErrorCode::GateClosed));
    assert_eq!(store.read(&slot()), before);
}

#[test]
fn deployments_have_gates_of_their_own() {
    let store = initialized_store(oracle());
    let other = Identity::new([7u8; 32]);
    let check = CheckGate { program_id: other, store };
    assert_eq!(check_gate(&check), Err(ErrorCode::NotInitialized));
    let mut init = Initialize { program_id: other, authority: payer(), store: check.store };
    assert_eq!(initialize(&mut init, stranger()), Ok(()));
    let mut set = SetGate { program_id: other, oracle: stranger(), store: init.store };
    assert_eq!(set_gate(&mut set, true), Ok(()));
    let store = set.store;
    assert_eq!(store.read(&slot()), Some(DepositGate { is_open: false, oracle: oracle() }));
    assert_eq!(
        store.read(&gate_address(&other).unwrap().address),
        Some(DepositGate { is_open: true, oracle: stranger() })
    );
}

#[test]
fn operations_at_a_given_address() {
    let mut store = GateStore::new();
    let address = Identity::new([8u8; 32]);
    assert_eq!(check_gate_at(&store, &address), Err(ErrorCode::NotInitialized));
    assert_eq!(set_gate_at(&mut store, &address, &oracle(), true), Err(ErrorCode::NotInitialized));
    assert_eq!(initialize_at(&mut store, address, oracle()), Ok(()));
    assert_eq!(store.read(&address), Some(DepositGate { is_open: false, oracle: oracle() }));
    assert_eq!(check_gate_at(&store, &address), Err(ErrorCode::GateClosed));
    assert_eq!(initialize_at(&mut store, address, stranger()), Err(ErrorCode::AlreadyInitialized));
    assert_eq!(set_gate_at(&mut store, &address, &stranger(), true), Err(ErrorCode::Unauthorized));
    assert_eq!(check_gate_at(&store, &address), Err(ErrorCode::GateClosed));
    assert_eq!(set_gate_at(&mut store, &address, &oracle(), true), Ok(()));
    assert_eq!(check_gate_at(&store, &address), Ok(()));
    assert_eq!(store.read(&address), Some(DepositGate { is_open: true, oracle: oracle() }));
    assert_eq!(set_gate_at(&mut store, &address, &oracle(), false), Ok(()));
    assert_eq!(check_gate_at(&store, &address), Err(ErrorCode::GateClosed));
}

#[test]
fn gate_stays_closed_until_its_oracle_opens_it() {
    let mut store = initialized_store(oracle());
    for round in 0..4u8 {
        let (next, set) = run_set_gate(store, stranger(), true);
        assert_eq!(set, Err(ErrorCode::Unauthorized));
        let (next, set) = run_set_gate(next, Identity::new([100 + round; 32]), true);
        assert_eq!(set, Err(ErrorCode::Unauthorized));
        let mut again = Initialize { program_id: program(), authority: stranger(), store: next };
        assert_eq!(initialize(&mut again, stranger()), Err(ErrorCode::AlreadyInitialized));
        let (next, set) = run_set_gate(again.store, oracle(), false);
        assert_eq!(set, Ok(()));
        let (next, checked) = run_check_gate(next);
        assert_eq!(checked, Err(ErrorCode::GateClosed));
        store = next;
    }
    assert_eq!(store.read(&slot()), Some(DepositGate { is_open: false, oracle: oracle() }));
    let (store, set) = run_set_gate(store, oracle(), true);
    assert_eq!(set, Ok(()));
    let (store, checked) = run_check_gate(store);
    assert_eq!(checked, Ok(()));
    assert_eq!(store.read(&slot()), Some(DepositGate { is_open: true, oracle: oracle() }));
}

#[test]
fn calls_in_one_deployment_leave_the_others_alone() {
    let store = initialized_store(oracle());
    let (store, _) = run_set_gate(store, oracle(), true);
    let other = Identity::new([7u8; 32]);
    let mut init = Initialize { program_id: other, authority: payer(), store };
    assert_eq!(initialize(&mut init, stranger()), Ok(()));
    let mut set = SetGate { program_id: other, oracle: stranger(), store: init.store };
    assert_eq!(set_gate(&mut set, true), Ok(()));
    assert_eq!(set_gate(&mut set, false), Ok(()));
    let mut wrong = SetGate { program_id: other, oracle: oracle(), store: set.store };
    assert_eq!(set_gate(&mut wrong, true), Err(ErrorCode::Unauthorized));
    let store = wrong.store;
    assert_eq!(store.read(&slot()), Some(DepositGate { is_open: true, oracle: oracle() }));
    let (_, checked) = run_check_gate(store);
    assert_eq!(checked, Ok(()));
}
