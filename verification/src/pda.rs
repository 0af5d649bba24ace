use vstd::prelude::*;

use vstd::string::StrSliceExecFns;
use vstd::string::StringSliceAdditionalSpecFns;

use crate::addr::Address;

verus! {

/// The derived sub-record address and its bump for a seed list and a
/// program identifier, or nothing when the bump search space is exhausted.
/// The result is a function of the seeds and the program alone; the same
/// inputs always yield the same output.
pub uninterp spec fn pda_of(seeds: Seq<Seq<u8>>, program: Seq<u8>) -> Option<(Seq<u8>, u8)>;

/// `key` is exactly the derived address for these seeds under `program`.
pub open spec fn key_is_pda(key: Address, seeds: Seq<Seq<u8>>, program: Address) -> bool {
    match pda_of(seeds, program@) {
        Some(pair) => key@ == pair.0,
        None => false,
    }
}

/// `r` is exactly what the address deriver answers for these seeds.
pub open spec fn pda_matches(
    r: Option<(Address, u8)>,
    seeds: Seq<Seq<u8>>,
    program: Seq<u8>,
) -> bool {
    match r {
        Some(pair) => pda_of(seeds, program) == Some((pair.0@, pair.1)) && pair.0@.len() == 32,
        None => pda_of(seeds, program) is None,
    }
}

/// Relies on solana_pubkey::Pubkey::try_find_program_address: searches the
/// bump space for a derived (off-curve) address; returns None when no bump
/// yields one or when the seed list itself is out of range, and never
/// panics.  The answer is deterministic in the seeds and the program.
#[verifier::external_body]
fn try_find_program_address(seeds: &Vec<Vec<u8>>, program_id: &Address) -> (r: Option<
    (Address, u8),
>)
    ensures
        r matches Some(pair) ==> pda_of(seeds.deep_view(), program_id@) == Some((pair.0@, pair.1))
            && pair.0@.len() == 32,
        r is None ==> pda_of(seeds.deep_view(), program_id@) is None,
{
    let seed_slices: Vec<&[u8]> = seeds.iter().map(|s| s.as_slice()).collect();
    let program = solana_pubkey::Pubkey::new_from_array(program_id.bytes);
    solana_pubkey::Pubkey::try_find_program_address(&seed_slices, &program)
        .map(|(address, bump)| (Address { bytes: address.to_bytes() }, bump))
}

/// The seed list of an asset's configuration record.
pub open spec fn config_seeds(mint: Seq<u8>) -> Seq<Seq<u8>> {
    seq!["stablecoin".spec_bytes(), mint]
}

/// Derive the address of an asset's configuration record.
pub fn find_config_pda(mint: &Address, program_id: &Address) -> (r: Option<(Address, u8)>)
    ensures
        pda_matches(r, config_seeds(mint@), program_id@),
{
    let mut seeds: Vec<Vec<u8>> = Vec::new();
    seeds.push("stablecoin".as_bytes_vec());
    seeds.push(mint.to_vec());
    proof {
        assert(seeds.deep_view() =~~= config_seeds(mint@));
    }
    try_find_program_address(&seeds, program_id)
}

/// The seed list of a holder's role record under a configuration.
pub open spec fn role_seeds(config: Seq<u8>, authority: Seq<u8>) -> Seq<Seq<u8>> {
    seq!["role".spec_bytes(), config, authority]
}

/// Derive the address of a holder's role record.
pub fn find_role_pda(config: &Address, authority: &Address, program_id: &Address) -> (r: Option<
    (Address, u8),
>)
    ensures
        pda_matches(r, role_seeds(config@, authority@), program_id@),
{
    let mut seeds: Vec<Vec<u8>> = Vec::new();
    seeds.push("role".as_bytes_vec());
    seeds.push(config.to_vec());
    seeds.push(authority.to_vec());
    proof {
        assert(seeds.deep_view() =~~= role_seeds(config@, authority@));
    }
    try_find_program_address(&seeds, program_id)
}

/// The seed list of a wallet's blacklist entry under a configuration.
pub open spec fn blacklist_seeds(config: Seq<u8>, wallet: Seq<u8>) -> Seq<Seq<u8>> {
    seq!["blacklist".spec_bytes(), config, wallet]
}

/// Derive the address of a wallet's blacklist entry.
pub fn find_blacklist_pda(config: &Address, wallet: &Address, program_id: &Address) -> (r: Option<
    (Address, u8),
>)
    ensures
        pda_matches(r, blacklist_seeds(config@, wallet@), program_id@),
{
    let mut seeds: Vec<Vec<u8>> = Vec::new();
    seeds.push("blacklist".as_bytes_vec());
    seeds.push(config.to_vec());
    seeds.push(wallet.to_vec());
    proof {
        assert(seeds.deep_view() =~~= blacklist_seeds(config@, wallet@));
    }
    try_find_program_address(&seeds, program_id)
}

/// The seed list of the auxiliary-record list that the transfer hook keeps
/// for a mint.
pub open spec fn extra_account_metas_seeds(mint: Seq<u8>) -> Seq<Seq<u8>> {
    seq!["extra-account-metas".spec_bytes(), mint]
}

/// Derive the address of the hook's auxiliary-record list for a mint.
pub fn find_extra_account_metas_pda(mint: &Address, hook_program: &Address) -> (r: Option<
    (Address, u8),
>)
    ensures
        pda_matches(r, extra_account_metas_seeds(mint@), hook_program@),
{
    let mut seeds: Vec<Vec<u8>> = Vec::new();
    seeds.push("extra-account-metas".as_bytes_vec());
    seeds.push(mint.to_vec());
    proof {
        assert(seeds.deep_view() =~~= extra_account_metas_seeds(mint@));
    }
    try_find_program_address(&seeds, hook_program)
}

} // verus!
