use deposit_gate::{DepositGate, ErrorCode, GateStore, Identity};

fn record(is_open: bool, oracle: u8) -> DepositGate {
    DepositGate { is_open, oracle: Identity::new([oracle; 32]) }
}

#[test]
fn new_store_is_empty() {
    let store = GateStore::new();
    assert_eq!(store.read(&Identity::new([0u8; 32])), None);
    assert_eq!(store.read(&Identity::new([1u8; 32])), None);
}

#[test]
fn create_then_read() {
    let mut store = GateStore::new();
    let address = Identity::new([1u8; 32]);
    assert_eq!(store.create(address, record(false, 9)), Ok(()));
    assert_eq!(store.read(&address), Some(record(false, 9)));
    assert_eq!(store.read(&Identity::new([2u8; 32])), None);
}

#[test]
fn create_at_occupied_address_is_rejected() {
    let mut store = GateStore::new();
    let address = Identity::new([1u8; 32]);
    assert_eq!(store.create(address, record(false, 9)), Ok(()));
    assert_eq!(store.create(address, record(true, 8)), Err(ErrorCode::AlreadyInitialized));
    assert_eq!(store.read(&address), Some(record(false, 9)));
}

#[test]
fn write_replaces_an_existing_record() {
    let mut store = GateStore::new();
    let address = Identity::new([1u8; 32]);
    assert_eq!(store.create(address, record(false, 9)), Ok(()));
    assert_eq!(store.write(&address, record(true, 9)), Ok(()));
    assert_eq!(store.read(&address), Some(record(true, 9)));
}

#[test]
fn write_at_free_address_is_rejected() {
    let mut store = GateStore::new();
    let address = Identity::new([1u8; 32]);
    assert_eq!(store.write(&address, record(true, 9)), Err(ErrorCode::NotInitialized));
    assert_eq!(store.read(&address), None);
}

#[test]
fn addresses_are_kept_apart() {
    let mut store = GateStore::new();
    let first = Identity::new([1u8; 32]);
    let second = Identity::new([2u8; 32]);
    assert_eq!(store.create(first, record(false, 9)), Ok(()));
    assert_eq!(store.create(second, record(true, 8)), Ok(()));
    assert_eq!(store.write(&first, record(true, 7)), Ok(()));
    assert_eq!(store.read(&first), Some(record(true, 7)));
    assert_eq!(store.read(&second), Some(record(true, 8)));
}
