//! Identities: fixed-size unique identifiers of callers, deployments and
//! storage addresses.

use vstd::prelude::*;

verus! {

/// A public identity of 32 bytes. Callers arrive with their identity already
/// verified: this library compares identities and never checks a signature.
/// Its view is the sequence of its bytes.
#[derive(Clone, Copy, Debug)]
pub struct Identity {
    pub bytes: [u8; 32],
}

impl View for Identity {
    type V = Seq<u8>;

    open spec fn view(&self) -> Seq<u8> {
        self.bytes@
    }
}

impl Identity {
    /// Wraps the 32 bytes of an identity.
    pub fn new(bytes: [u8; 32]) -> (id: Identity)
        ensures
            id.bytes == bytes,
            id@ == bytes@,
    {
        Identity { bytes }
    }

    /// Whether two identities are the same, byte for byte.
    pub fn same(&self, other: &Identity) -> (equal: bool)
        ensures
            equal == (self@ == other@),
            equal == (*self == *other),
    {
        proof {
            lemma_identity_by_view(*self, *other);
        }
        let mut i: usize = 0;
        while i < 32
            invariant
                i <= 32,
                forall|k: int| 0 <= k < i ==> self@[k] == other@[k],
            decreases 32 - i,
        {
            if self.bytes[i] != other.bytes[i] {
                return false;
            }
            i += 1;
        }
        assert(self@ =~= other@);
        true
    }
}

/// Two identities are the same exactly if their bytes are: an identity is
/// nothing but its view.
pub proof fn lemma_identity_by_view(a: Identity, b: Identity)
    ensures
        (a@ == b@) <==> (a == b),
{
    if a@ == b@ {
        assert forall|k: int| 0 <= k < 32 implies a.bytes[k] == b.bytes[k] by {
            assert(a.bytes[k] == a@[k]);
            assert(b.bytes[k] == b@[k]);
        }
        assert(a.bytes =~= b.bytes);
    }
}

impl PartialEq for Identity {
    fn eq(&self, other: &Identity) -> (equal: bool) {
        self.same(other)
    }
}

impl Eq for Identity {}

impl vstd::std_specs::cmp::PartialEqSpecImpl for Identity {
    open spec fn obeys_eq_spec() -> bool {
        true
    }

    open spec fn eq_spec(&self, other: &Identity) -> bool {
        self@ == other@
    }
}

} // verus!
