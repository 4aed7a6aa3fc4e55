//! Address derivation: where the one gate record of a deployment lives.

use vstd::prelude::*;
use anchor_lang::prelude::Pubkey;
use crate::identity::Identity;
use crate::record::ErrorCode;

verus! {

/// The namespace tag of a deposit gate's record: the bytes of `deposit_gate`.
pub const GATE_TAG: [u8; 12] = [100, 101, 112, 111, 115, 105, 116, 95, 103, 97, 116, 101];

/// A derived address with the discriminator that the search settled on.
#[derive(Clone, Copy, Debug, PartialEq, Eq)]
pub struct DerivedAddress {
    pub address: Identity,
    pub bump: u8,
}

/// What `Pubkey::try_find_program_address` returns for a single seed and a
/// program id, each given by its bytes: the program-derived address and its
/// bump seed, or `None` where the search finds no address.
pub uninterp spec fn program_address(seed: Seq<u8>, program: Seq<u8>) -> Option<(Seq<u8>, u8)>;

/// A search result with the address taken by its bytes.
pub open spec fn search_view(found: Option<([u8; 32], u8)>) -> Option<(Seq<u8>, u8)> {
    match found {
        Some((address, bump)) => Some((address@, bump)),
        None => None,
    }
}

/// Calls `Pubkey::try_find_program_address`, as `anchor_lang::prelude`
/// exports it, with the one seed `seed` and the program id `program`.
///
/// Trusted, not proved: the result is `program_address` of the bytes handed
/// in, and nothing more is claimed of it. The search tries the bump seeds
/// from 255 downwards, hashes the seed, the bump seed, the program id and a
/// fixed marker, and answers with the first hash that is no point of the
/// ed25519 curve; it reads nothing but its arguments. Where no bump seed
/// gives such a hash, or the seed is longer than 32 bytes, it answers `None`;
/// it does not panic.
#[verifier::external_body]
fn find_program_address(seed: &[u8], program: &[u8; 32]) -> (found: Option<([u8; 32], u8)>)
    ensures
        search_view(found) == program_address(seed@, program@),
{
    let program_id = Pubkey::new_from_array(*program);
    match Pubkey::try_find_program_address(&[seed], &program_id) {
        Some((address, bump)) => Some((address.to_bytes(), bump)),
        None => None,
    }
}

/// What deriving an address under `tag` for `deployment` comes to: the
/// address and its discriminator, or the failure of the derivation.
pub open spec fn derivation(tag: Seq<u8>, deployment: Seq<u8>) -> Result<(Seq<u8>, u8), ErrorCode> {
    match program_address(tag, deployment) {
        Some(found) => Ok(found),
        None => Err(ErrorCode::AddressDerivationError),
    }
}

/// A derivation's outcome with the address taken by its bytes.
pub open spec fn derived_view(derived: Result<DerivedAddress, ErrorCode>) -> Result<(Seq<u8>, u8), ErrorCode> {
    match derived {
        Ok(d) => Ok((d.address@, d.bump)),
        Err(e) => Err(e),
    }
}

/// Turns the outcome of an address search into the derived address, or into
/// `AddressDerivationError` where the search found no address.
pub fn address_from_search(found: Option<([u8; 32], u8)>) -> (derived: Result<DerivedAddress, ErrorCode>)
    ensures
        match found {
            Some((bytes, bump)) => derived == Ok::<DerivedAddress, ErrorCode>(
                DerivedAddress { address: Identity { bytes }, bump },
            ),
            None => derived == Err::<DerivedAddress, ErrorCode>(ErrorCode::AddressDerivationError),
        },
{
    match found {
        Some((bytes, bump)) => Ok(DerivedAddress { address: Identity::new(bytes), bump }),
        None => Err(ErrorCode::AddressDerivationError),
    }
}

/// Derives the address that `tag` names within `deployment`, with its
/// discriminator. It fails with `AddressDerivationError` where no address
/// exists for them. The same tag and deployment always derive the same
/// address.
pub fn derive_address(tag: &[u8], deployment: &Identity) -> (derived: Result<DerivedAddress, ErrorCode>)
    ensures
        derived_view(derived) == derivation(tag@, deployment@),
{
    address_from_search(find_program_address(tag, &deployment.bytes))
}

/// The address of the record of `deployment`, if one can be derived.
pub open spec fn gate_slot(deployment: Seq<u8>) -> Option<Seq<u8>> {
    match derivation(GATE_TAG@, deployment) {
        Ok(found) => Some(found.0),
        Err(_) => None,
    }
}

/// Derives the address of the record of `deployment`: the address that
/// `GATE_TAG` names within it.
pub fn gate_address(deployment: &Identity) -> (derived: Result<DerivedAddress, ErrorCode>)
    ensures
        derived_view(derived) == derivation(GATE_TAG@, deployment@),
        match derived {
            Ok(found) => gate_slot(deployment@) == Some(found.address@),
            Err(e) => gate_slot(deployment@) is None && e == ErrorCode::AddressDerivationError,
        },
{
    let tag: [u8; 12] = GATE_TAG;
    derive_address(&tag, deployment)
}

} // verus!
