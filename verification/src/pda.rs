//! Deterministic account derivation: the canonical program-derived address
//! of an ordered list of seed components under a program identity, the check
//! of a caller-supplied address against that derivation, and the wildcard
//! "null" marker address.
//!
//! Every handler that receives an externally supplied address for a
//! program-owned account must pass it through [`verify`] before using it;
//! a mismatch is a substitution attempt and aborts the call.

use vstd::prelude::*;
use crate::address::{address_eq, Address};
use crate::errors::ErrorCode;

verus! {

/// Longest single seed component the address space accepts.
pub const MAX_SEED_LEN: usize = 32;

/// Most seed components the address space accepts, the bump included.
pub const MAX_SEEDS: usize = 16;

/// The canonical derived address and bump nonce of a seed list under a
/// program identity, or `None` when the seed list admits no address. The
/// host derives it by hashing; the engine relies only on the result being a
/// function of the seed bytes and the program identity.
pub uninterp spec fn pda_of(seeds: Seq<Seq<u8>>, program_id: Seq<u8>) -> Option<(Seq<u8>, u8)>;

/// The byte views of a list of seed components.
pub open spec fn seeds_view(seeds: Seq<Vec<u8>>) -> Seq<Seq<u8>> {
    seeds.map_values(|s: Vec<u8>| s@)
}

/// Relies on solana_program's `Pubkey::try_find_program_address`: the result
/// is a function of the seed bytes and the program identity alone, and the
/// derivation returns nothing when 16 or more seed components are given or
/// when any component exceeds 32 bytes (no bump can repair such a list).
#[verifier::external_body]
fn find_program_address_raw(seeds: &Vec<Vec<u8>>, program_id: &Address) -> (r: Option<(Address, u8)>)
    ensures
        (r is Some) == (pda_of(seeds_view(seeds@), program_id@) is Some),
        r matches Some(p) ==> pda_of(seeds_view(seeds@), program_id@) == Some((p.0@, p.1)),
        seeds@.len() >= 16 ==> r is None,
        (exists|i: int| 0 <= i < seeds@.len() && (#[trigger] seeds@[i])@.len() > 32) ==> r is None,
{
    let seed_refs: Vec<&[u8]> = seeds.iter().map(|s| s.as_slice()).collect();
    let program = solana_program::pubkey::Pubkey::new_from_array(program_id.0);
    solana_program::pubkey::Pubkey::try_find_program_address(&seed_refs, &program)
        .map(|(address, bump)| (Address(address.to_bytes()), bump))
}

/// A seed list the address space accepts: fewer than 16 components, leaving
/// room for the bump, and no component longer than 32 bytes.
pub open spec fn seed_components_ok(seeds: Seq<Seq<u8>>) -> bool {
    &&& seeds.len() < 16
    &&& forall|i: int| 0 <= i < seeds.len() ==> (#[trigger] seeds[i]).len() <= 32
}

/// Checks the bounds of a seed list.
pub fn check_seed_components(seeds: &Vec<Vec<u8>>) -> (r: bool)
    ensures
        r == seed_components_ok(seeds_view(seeds@)),
{
    if seeds.len() >= MAX_SEEDS {
        return false;
    }
    let mut i: usize = 0;
    while i < seeds.len()
        invariant
            i <= seeds@.len(),
            seeds@.len() < 16,
            forall|j: int| 0 <= j < i ==> (#[trigger] seeds@[j])@.len() <= 32,
        decreases seeds@.len() - i,
    {
        if seeds[i].len() > MAX_SEED_LEN {
            proof {
                assert(seeds_view(seeds@)[i as int] == seeds@[i as int]@);
            }
            return false;
        }
        i += 1;
    }
    true
}

/// Derives the canonical address and bump of a seed list under the program
/// identity. Fails with `IncorrectSeeds` when the seed list is out of bounds
/// or the address space yields no address for it.
pub fn derive_address(seeds: &Vec<Vec<u8>>, program_id: &Address) -> (r: Result<(Address, u8), ErrorCode>)
    ensures
        r is Ok <==> seed_components_ok(seeds_view(seeds@)) && pda_of(seeds_view(seeds@), program_id@) is Some,
        r matches Ok(p) ==> pda_of(seeds_view(seeds@), program_id@) == Some((p.0@, p.1)),
        r matches Err(e) ==> e == ErrorCode::IncorrectSeeds,
{
    if !check_seed_components(seeds) {
        return Err(ErrorCode::IncorrectSeeds);
    }
    match find_program_address_raw(seeds, program_id) {
        Some(p) => Ok(p),
        None => Err(ErrorCode::IncorrectSeeds),
    }
}

/// A claimed address is exactly the canonical derived address of the seeds.
pub open spec fn pda_matches(claimed: Seq<u8>, seeds: Seq<Seq<u8>>, program_id: Seq<u8>) -> bool {
    &&& seed_components_ok(seeds)
    &&& match pda_of(seeds, program_id) {
        Some(p) => p.0 == claimed,
        None => false,
    }
}

/// Checks a caller-supplied address against the canonical derivation of the
/// given seeds; `false` on any mismatch, an out-of-bounds seed list
/// included.
pub fn verify(claimed: &Address, seeds: &Vec<Vec<u8>>, program_id: &Address) -> (r: bool)
    ensures
        r == pda_matches(claimed@, seeds_view(seeds@), program_id@),
{
    match derive_address(seeds, program_id) {
        Ok((address, _bump)) => address_eq(&address, claimed),
        Err(_) => false,
    }
}

/// Round trip of the deriver: an address that was just derived from a seed
/// list always verifies against that same seed list and program identity.
pub proof fn lemma_derive_verify_round_trip(seeds: Seq<Seq<u8>>, program_id: Seq<u8>, address: Seq<u8>, bump: u8)
    requires
        seed_components_ok(seeds),
        pda_of(seeds, program_id) == Some((address, bump)),
    ensures
        pda_matches(address, seeds, program_id),
{
}

/// The seed of the wildcard marker address: the bytes of "null".
pub open spec fn null_seed() -> Seq<u8> {
    seq![110u8, 117u8, 108u8, 108u8]
}

/// An address is the program's wildcard marker: the address derived from the
/// single seed "null", an unspendable account used to mean "any mint".
pub open spec fn is_null_marker(address: Seq<u8>, program_id: Seq<u8>) -> bool {
    match pda_of(seq![null_seed()], program_id) {
        Some(p) => p.0 == address,
        None => false,
    }
}

/// Checks whether an address is the program's wildcard marker.
pub fn matches_null_marker(address: &Address, program_id: &Address) -> (r: bool)
    ensures
        r == is_null_marker(address@, program_id@),
{
    let mut null_bytes: Vec<u8> = Vec::new();
    null_bytes.push(110u8);
    null_bytes.push(117u8);
    null_bytes.push(108u8);
    null_bytes.push(108u8);
    proof {
        assert(null_bytes@ =~= null_seed());
    }
    let mut seeds: Vec<Vec<u8>> = Vec::new();
    seeds.push(null_bytes);
    proof {
        assert(seeds_view(seeds@) =~= seq![null_seed()]);
    }
    match find_program_address_raw(&seeds, program_id) {
        Some(p) => address_eq(&p.0, address),
        None => false,
    }
}

} // verus!
