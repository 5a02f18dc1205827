//! Derivation of the authority discriminator ("bump") that makes the
//! storage account's address a valid derived address: one with no
//! corresponding private key, signable only by this program asserting the
//! identity's key as seed.

use vstd::prelude::*;

verus! {

/// The result of the host's bump derivation for the given seed and program
/// identity: the bump paired with the first valid derived address, or
/// `None` in the statistically improbable case that no bump yields one. The
/// derivation is a deterministic function of the two keys alone, so the
/// same keys always give the same result.
pub uninterp spec fn derived_bump_result(user_key: Seq<u8>, program_id: Seq<u8>) -> Option<u8>;

/// Relies on `solana_address::Address::try_find_program_address`: the
/// derived address and its bump are computed from the seeds and the program
/// address alone, deterministically — the same on every invocation and on
/// every machine — and `None` comes back exactly when no bump yields a
/// valid derived address for these seeds.
#[verifier::external_body]
fn find_bump(user_key: &[u8; 32], program_id: &[u8; 32]) -> (r: Option<u8>)
    ensures
        r == derived_bump_result(user_key@, program_id@),
{
    solana_address::Address::try_find_program_address(
        &[user_key.as_slice()],
        &solana_address::Address::new_from_array(*program_id),
    ).map(|found| found.1)
}

/// Derives the authority discriminator ("bump") for the storage account of
/// the identity with key `user_key`, under the program `program_id`. The
/// result is a function of the two keys alone, so it is the same on every
/// invocation. `None` comes back only in the statistically improbable case
/// that no bump yields a valid derived address; the creation path cannot be
/// authorized then.
pub fn derive_authority(user_key: &[u8; 32], program_id: &[u8; 32]) -> (r: Option<u8>)
    ensures
        r == derived_bump_result(user_key@, program_id@),
{
    find_bump(user_key, program_id)
}

} // verus!
