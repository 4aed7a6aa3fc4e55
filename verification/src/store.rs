//! The keyed store that holds gate records by address.

use vstd::prelude::*;
use crate::identity::Identity;
use crate::record::{DepositGate, ErrorCode};

verus! {

/// One occupied address of the store with the record that lives there.
struct Entry {
    address: Identity,
    record: DepositGate,
}

/// Whether `i` is the position of the entry stored at `address`.
spec fn holds_at(entries: Seq<Entry>, i: int, address: Seq<u8>) -> bool {
    0 <= i < entries.len() && entries[i].address@ == address
}

/// No two entries share an address.
spec fn distinct(entries: Seq<Entry>) -> bool {
    forall|i: int, j: int|
        0 <= i < entries.len() && 0 <= j < entries.len() && entries[i].address@
            == entries[j].address@ ==> i == j
}

/// The map from each occupied address to the record stored there.
spec fn contents(entries: Seq<Entry>) -> Map<Seq<u8>, DepositGate> {
    Map::new(
        |address: Seq<u8>| exists|i: int| holds_at(entries, i, address),
        |address: Seq<u8>| entries[choose|i: int| holds_at(entries, i, address)].record,
    )
}

/// The entry at position `i` is what the contents hold at its address.
proof fn lemma_contents_at(entries: Seq<Entry>, i: int)
    requires
        distinct(entries),
        0 <= i < entries.len(),
    ensures
        contents(entries).contains_key(entries[i].address@),
        contents(entries)[entries[i].address@] == entries[i].record,
{
    let address = entries[i].address@;
    assert(holds_at(entries, i, address));
    let k = choose|k: int| holds_at(entries, k, address);
    assert(k == i);
}

/// An address that no entry has is absent from the contents.
proof fn lemma_contents_absent(entries: Seq<Entry>, address: Seq<u8>)
    requires
        forall|i: int| !holds_at(entries, i, address),
    ensures
        !contents(entries).contains_key(address),
{
}

/// Appending an entry at a free address inserts it into the contents.
proof fn lemma_contents_push(entries: Seq<Entry>, entry: Entry)
    requires
        distinct(entries),
        forall|i: int| !holds_at(entries, i, entry.address@),
    ensures
        distinct(entries.push(entry)),
        contents(entries.push(entry)) == contents(entries).insert(entry.address@, entry.record),
{
    let grown = entries.push(entry);
    let n = entries.len() as int;
    assert forall|i: int, j: int|
        0 <= i < grown.len() && 0 <= j < grown.len() && grown[i].address@
            == grown[j].address@ implies i == j by {
        if i < n && j == n {
            assert(holds_at(entries, i, entry.address@));
        }
        if j < n && i == n {
            assert(holds_at(entries, j, entry.address@));
        }
    }
    let expected = contents(entries).insert(entry.address@, entry.record);
    assert forall|a: Seq<u8>| contents(grown).contains_key(a) <==> expected.contains_key(a) by {
        if contents(grown).contains_key(a) {
            let i = choose|i: int| holds_at(grown, i, a);
            if i < n {
                assert(holds_at(entries, i, a));
            }
        }
        if contents(entries).contains_key(a) {
            let i = choose|i: int| holds_at(entries, i, a);
            assert(holds_at(grown, i, a));
        }
        if a == entry.address@ {
            assert(holds_at(grown, n, a));
        }
    }
    assert forall|a: Seq<u8>| contents(grown).contains_key(a) implies contents(grown)[a]
        == expected[a] by {
        let i = choose|i: int| holds_at(grown, i, a);
        lemma_contents_at(grown, i);
        if i < n {
            assert(holds_at(entries, i, a));
            lemma_contents_at(entries, i);
        }
    }
    assert(contents(grown) =~= expected);
}

/// Replacing the record of the entry at position `i` replaces what the
/// contents hold at its address.
proof fn lemma_contents_update(entries: Seq<Entry>, i: int, record: DepositGate)
    requires
        distinct(entries),
        0 <= i < entries.len(),
    ensures
        distinct(entries.update(i, Entry { address: entries[i].address, record })),
        contents(entries.update(i, Entry { address: entries[i].address, record })) == contents(
            entries,
        ).insert(entries[i].address@, record),
{
    let changed = entries.update(i, Entry { address: entries[i].address, record });
    assert forall|j: int| 0 <= j < entries.len() implies #[trigger] changed[j].address
        == entries[j].address by {}
    assert(distinct(changed));
    let expected = contents(entries).insert(entries[i].address@, record);
    assert forall|a: Seq<u8>| contents(changed).contains_key(a) <==> expected.contains_key(a) by {
        if contents(changed).contains_key(a) {
            let j = choose|j: int| holds_at(changed, j, a);
            assert(holds_at(entries, j, a));
        }
        if contents(entries).contains_key(a) {
            let j = choose|j: int| holds_at(entries, j, a);
            assert(holds_at(changed, j, a));
        }
        if a == entries[i].address@ {
            assert(holds_at(changed, i, a));
        }
    }
    assert forall|a: Seq<u8>| contents(changed).contains_key(a) implies contents(changed)[a]
        == expected[a] by {
        let j = choose|j: int| holds_at(changed, j, a);
        lemma_contents_at(changed, j);
        assert(holds_at(entries, j, a));
        lemma_contents_at(entries, j);
    }
    assert(contents(changed) =~= expected);
}

/// A store of records keyed by address, in memory. It offers the three
/// primitives that a deposit gate needs of its storage: create-if-absent,
/// read and write-if-exists. No address ever holds two records, and no
/// record is ever removed.
///
/// Its view is the map from the bytes of each occupied address to the record
/// stored there.
pub struct GateStore {
    entries: Vec<Entry>,
}

impl View for GateStore {
    type V = Map<Seq<u8>, DepositGate>;

    closed spec fn view(&self) -> Map<Seq<u8>, DepositGate> {
        contents(self.entries@)
    }
}

impl GateStore {
    /// Every store keeps its addresses apart.
    #[verifier::type_invariant]
    spec fn well_formed(self) -> bool {
        distinct(self.entries@)
    }

    /// An empty store.
    pub fn new() -> (store: GateStore)
        ensures
            store@ == Map::<Seq<u8>, DepositGate>::empty(),
    {
        let store = GateStore { entries: Vec::new() };
        assert(store@ =~= Map::<Seq<u8>, DepositGate>::empty());
        store
    }

    /// The position of the entry stored at `address`, if there is one.
    fn position(&self, address: &Identity) -> (found: Option<usize>)
        ensures
            match found {
                Some(i) => holds_at(self.entries@, i as int, address@),
                None => forall|i: int| !holds_at(self.entries@, i, address@),
            },
    {
        let mut i: usize = 0;
        while i < self.entries.len()
            invariant
                i <= self.entries@.len(),
                forall|k: int| 0 <= k < i ==> !holds_at(self.entries@, k, address@),
            decreases self.entries@.len() - i,
        {
            if self.entries[i].address.same(address) {
                return Some(i);
            }
            i += 1;
        }
        None
    }

    /// Reads the record stored at `address`.
    pub fn read(&self, address: &Identity) -> (found: Option<DepositGate>)
        ensures
            found == (if self@.contains_key(address@) {
                Some(self@[address@])
            } else {
                None
            }),
    {
        proof {
            use_type_invariant(self);
        }
        match self.position(address) {
            Some(i) => {
                proof {
                    lemma_contents_at(self.entries@, i as int);
                }
                Some(self.entries[i].record)
            },
            None => None,
        }
    }

    /// Creates `record` at `address` if the address is free. An occupied
    /// address keeps its record and is reported as `AlreadyInitialized`.
    pub fn create(&mut self, address: Identity, record: DepositGate) -> (created: Result<
        (),
        ErrorCode,
    >)
        ensures
            old(self)@.contains_key(address@) ==> created == Err::<(), ErrorCode>(
                ErrorCode::AlreadyInitialized,
            ) && final(self)@ == old(self)@,
            !old(self)@.contains_key(address@) ==> created == Ok::<(), ErrorCode>(())
                && final(self)@ == old(self)@.insert(address@, record),
    {
        proof {
            use_type_invariant(&*self);
        }
        match self.position(&address) {
            Some(i) => {
                proof {
                    lemma_contents_at(self.entries@, i as int);
                }
                Err(ErrorCode::AlreadyInitialized)
            },
            None => {
                let entry = Entry { address, record };
                proof {
                    lemma_contents_push(self.entries@, entry);
                }
                let mut entries: Vec<Entry> = Vec::new();
                std::mem::swap(&mut entries, &mut self.entries);
                entries.push(entry);
                self.entries = entries;
                Ok(())
            },
        }
    }

    /// Replaces the record stored at `address` by `record` if the address is
    /// occupied. A free address stays free and is reported as
    /// `NotInitialized`.
    pub fn write(&mut self, address: &Identity, record: DepositGate) -> (written: Result<
        (),
        ErrorCode,
    >)
        ensures
            old(self)@.contains_key(address@) ==> written == Ok::<(), ErrorCode>(())
                && final(self)@ == old(self)@.insert(address@, record),
            !old(self)@.contains_key(address@) ==> written == Err::<(), ErrorCode>(
                ErrorCode::NotInitialized,
            ) && final(self)@ == old(self)@,
    {
        proof {
            use_type_invariant(&*self);
        }
        match self.position(address) {
            Some(i) => {
                let entry = Entry { address: self.entries[i].address, record };
                proof {
                    lemma_contents_at(self.entries@, i as int);
                    lemma_contents_update(self.entries@, i as int, record);
                }
                let mut entries: Vec<Entry> = Vec::new();
                std::mem::swap(&mut entries, &mut self.entries);
                entries[i] = entry;
                self.entries = entries;
                Ok(())
            },
            None => Err(ErrorCode::NotInitialized),
        }
    }
}

} // verus!
