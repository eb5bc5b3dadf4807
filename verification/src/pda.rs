//! Deterministic derivation of program-owned addresses.
//!
//! A derived address is computed from a program identity and a list of seeds.
//! The search appends a one-byte bump to the seeds, starting at 255 and going
//! down, and hashes until the result is no valid public key, so that nobody
//! holds a private key for it. The search itself is the ledger library's; this
//! module fixes the seeds of each kind of record and checks claimed addresses.

use crate::pubkey::Pubkey;
use vstd::prelude::*;

verus! {

/// Greatest length of one seed.
pub const MAX_SEED_LEN: usize = 32;

/// Greatest number of seeds, the bump included.
pub const MAX_SEEDS: usize = 16;

/// The address and bump that the ledger library's search finds for `seeds`
/// under the program `program_id`, if it finds any.
pub uninterp spec fn found_program_address(
    seeds: Seq<Seq<u8>>,
    program_id: Seq<u8>,
) -> Option<(Seq<u8>, u8)>;

/// The seeds of a list of byte vectors, as mathematical values.
pub open spec fn seed_views(seeds: Seq<Vec<u8>>) -> Seq<Seq<u8>> {
    seeds.map_values(|seed: Vec<u8>| seed@)
}

/// Whether the search refuses `seeds` outright: too many of them, or one too long.
pub open spec fn seeds_refused(seeds: Seq<Seq<u8>>) -> bool {
    seeds.len() >= MAX_SEEDS || exists|i: int|
        0 <= i < seeds.len() && (#[trigger] seeds[i]).len() > MAX_SEED_LEN
}

/// `Pubkey::try_find_program_address` of the ledger library: the result is the
/// one that the search finds for these seeds and this program, and there is
/// none where the seeds are refused outright.
#[verifier::external_body]
fn try_find_program_address(
    seeds: &Vec<Vec<u8>>,
    program_id: &Pubkey,
) -> (found: Option<(Pubkey, u8)>)
    ensures
        match found {
            Some((address, bump)) => found_program_address(seed_views(seeds@), program_id@)
                == Some((address@, bump)),
            None => found_program_address(seed_views(seeds@), program_id@) is None,
        },
        seeds_refused(seed_views(seeds@)) ==> found is None,
{
    let parts: Vec<&[u8]> = seeds.iter().map(|seed| seed.as_slice()).collect();
    let program = solana_program::pubkey::Pubkey::new_from_array(program_id.bytes);
    solana_program::pubkey::Pubkey::try_find_program_address(&parts, &program)
        .map(|(address, bump)| (Pubkey { bytes: address.to_bytes() }, bump))
}

/// Copies a run of bytes into a seed.
pub fn seed_from(bytes: &[u8]) -> (seed: Vec<u8>)
    ensures
        seed@ == bytes@,
{
    let mut seed: Vec<u8> = Vec::new();
    crate::codec::put_bytes(&mut seed, bytes);
    assert(seed@ =~= bytes@);
    seed
}

/// The seeds with which the program signs for a derived address: the seeds
/// of the address, then its bump.
pub fn signer_seeds(seeds: Vec<Vec<u8>>, bump: u8) -> (signing: Vec<Vec<u8>>)
    ensures
        seed_views(signing@) == seed_views(seeds@).push(seq![bump]),
{
    let mut signing = seeds;
    let mut last: Vec<u8> = Vec::new();
    last.push(bump);
    assert(last@ =~= seq![bump]);
    signing.push(last);
    assert(seed_views(signing@) =~= seed_views(seeds@).push(seq![bump]));
    signing
}

/// Searches the address derived from `seeds` under the program `program_id`.
///
/// There is none where more than fifteen seeds are given or one is longer
/// than 32 bytes. Otherwise the search decides.
pub fn find_program_address(
    seeds: &Vec<Vec<u8>>,
    program_id: &Pubkey,
) -> (found: Option<(Pubkey, u8)>)
    ensures
        match found {
            Some((address, bump)) => found_program_address(seed_views(seeds@), program_id@)
                == Some((address@, bump)),
            None => found_program_address(seed_views(seeds@), program_id@) is None,
        },
        seeds_refused(seed_views(seeds@)) ==> found is None,
{
    try_find_program_address(seeds, program_id)
}

/// Whether `address` and `bump` are what the search finds for `seeds`.
pub open spec fn derives(
    seeds: Seq<Seq<u8>>,
    program_id: Pubkey,
    address: Pubkey,
    bump: u8,
) -> bool {
    found_program_address(seeds, program_id@) == Some((address@, bump))
}

/// Recomputes the address derived from `seeds` and compares it, and its bump,
/// with the claimed ones.
pub fn verify_program_address(
    seeds: &Vec<Vec<u8>>,
    program_id: &Pubkey,
    address: &Pubkey,
    bump: u8,
) -> (matches: bool)
    ensures
        matches == derives(seed_views(seeds@), *program_id, *address, bump),
{
    match try_find_program_address(seeds, program_id) {
        Some((expected, expected_bump)) => {
            let equal = expected.same(address);
            proof {
                if expected@ == address@ {
                    assert(expected.bytes =~= address.bytes);
                }
            }
            equal && expected_bump == bump
        },
        None => false,
    }
}

/// Deriving and then checking succeeds: the address and bump that the
/// search finds are the ones that pass the check. And a claimed address
/// that differs from the derived one in a single byte does not pass it.
pub proof fn lemma_derive_then_verify(
    seeds: Seq<Seq<u8>>,
    program_id: Pubkey,
    address: Pubkey,
    bump: u8,
    claimed: Pubkey,
    flipped: int,
)
    requires
        found_program_address(seeds, program_id@) == Some((address@, bump)),
        0 <= flipped < 32,
        claimed.bytes[flipped] != address.bytes[flipped],
    ensures
        derives(seeds, program_id, address, bump),
        !derives(seeds, program_id, claimed, bump),
{
    if claimed@ == address@ {
        assert(claimed@[flipped] == address@[flipped]);
    }
}

/// A claimed address that differs from the derived one is refused, whatever
/// the bump; so is a claimed bump that differs from the derived one.
pub proof fn lemma_other_address_refused(
    seeds: Seq<Seq<u8>>,
    program_id: Pubkey,
    address: Pubkey,
    bump: u8,
    claimed: Pubkey,
    claimed_bump: u8,
)
    requires
        derives(seeds, program_id, address, bump),
        claimed != address || claimed_bump != bump,
    ensures
        !derives(seeds, program_id, claimed, claimed_bump),
{
    if claimed@ == address@ {
        assert(claimed.bytes =~= address.bytes);
    }
}

} // verus!
