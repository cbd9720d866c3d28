//! Program-derived addresses.

use vstd::prelude::*;
use crate::account::seeds_view;
use crate::key::Pubkey;

verus! {

/// The program address and bump seed that the address search finds for
/// `seeds` under `program_id`, or `None` when the search fails.
pub uninterp spec fn program_address(seeds: Seq<Seq<u8>>, program_id: Seq<u8>) -> Option<(Seq<u8>, u8)>;

/// The views of a list of seeds.
pub open spec fn seed_list_view(seeds: Vec<Vec<u8>>) -> Seq<Seq<u8>> {
    seeds@.map_values(|s: Vec<u8>| s@)
}

/// Calls `solana_program::pubkey::Pubkey::try_find_program_address`.
/// Claimed: the result is a function of the seeds and the program id
/// (named `program_address`), the address being returned as its bytes.
/// The search itself (hashing and the curve test) is not stated.
#[verifier::external_body]
pub(crate) fn try_find_program_address(seeds: &Vec<Vec<u8>>, program_id: &Pubkey) -> (r: Option<(Pubkey, u8)>)
    ensures
        match r {
            Some((k, bump)) => program_address(seed_list_view(*seeds), program_id@) == Some((k@, bump)),
            None => program_address(seed_list_view(*seeds), program_id@) is None,
        },
{
    let refs: Vec<&[u8]> = seeds.iter().map(|s| s.as_slice()).collect();
    let pid = solana_program::pubkey::Pubkey::new_from_array(*program_id);
    solana_program::pubkey::Pubkey::try_find_program_address(&refs, &pid).map(|(k, b)| (k.to_bytes(), b))
}

/// The signer seeds for one program address: its seeds followed by the bump.
pub fn signer_seeds_with_bump(seeds: Vec<Vec<u8>>, bump: u8) -> (r: Vec<Vec<Vec<u8>>>)
    ensures
        seeds_view(r) == seq![seed_list_view(seeds).push(seq![bump])],
{
    let ghost before = seeds;
    let mut signer = seeds;
    let mut bump_seed: Vec<u8> = Vec::new();
    bump_seed.push(bump);
    assert(bump_seed@ =~= seq![bump]);
    signer.push(bump_seed);
    assert(seed_list_view(signer) =~= seed_list_view(before).push(seq![bump]));
    let mut out: Vec<Vec<Vec<u8>>> = Vec::new();
    out.push(signer);
    assert(seeds_view(out) =~= seq![seed_list_view(before).push(seq![bump])]);
    out
}

} // verus!
