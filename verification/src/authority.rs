//! Derivation of the vault's keyless signing authority and of the vault
//! record's own address: a deterministic map from (seed tag, owner, asset,
//! program id) to an address with no private key, plus the bump byte that
//! disambiguates it. The program, and only the program, can authorize
//! actions as that address, by presenting the seeds and the bump as a proof
//! instead of a signature.

use vstd::prelude::*;
use crate::account_id::{AccountId, account_id_to_vec};

verus! {

/// The seed tag under which the vault's signing authority is derived.
pub open spec fn authority_seed_tag() -> Seq<u8> {
    seq![118u8, 97u8, 117u8, 108u8, 116u8]
}

/// The seed tag under which the vault record's own address is derived; the
/// runtime's create-if-absent semantics at that address make a second
/// initialization for the same (owner, asset) pair structurally impossible.
pub open spec fn state_seed_tag() -> Seq<u8> {
    seq![118u8, 97u8, 117u8, 108u8, 116u8, 45u8, 115u8, 116u8, 97u8, 116u8, 101u8]
}

/// The bytes of `authority_seed_tag`.
pub fn authority_seed_tag_bytes() -> (r: Vec<u8>)
    ensures
        r@ == authority_seed_tag(),
{
    let r: Vec<u8> = vec![118u8, 97u8, 117u8, 108u8, 116u8];
    proof {
        assert(r@ =~= authority_seed_tag());
    }
    r
}

/// The bytes of `state_seed_tag`.
pub fn state_seed_tag_bytes() -> (r: Vec<u8>)
    ensures
        r@ == state_seed_tag(),
{
    let r: Vec<u8> = vec![118u8, 97u8, 117u8, 108u8, 116u8, 45u8, 115u8, 116u8, 97u8, 116u8, 101u8];
    proof {
        assert(r@ =~= state_seed_tag());
    }
    r
}

/// The address and bump that the runtime's derivation yields for three seeds
/// and a program id, or `None` in the statistically improbable event that no
/// bump byte yields an off-curve address.
pub uninterp spec fn program_address_of(tag: Seq<u8>, seed1: Seq<u8>, seed2: Seq<u8>, program_id: Seq<u8>) -> Option<(Seq<u8>, u8)>;

/// A derivation result reduced to byte sequences.
pub open spec fn address_view(r: Option<(AccountId, u8)>) -> Option<(Seq<u8>, u8)> {
    match r {
        Some(p) => Some((p.0@, p.1)),
        None => None,
    }
}

/// Relies on anchor_lang's `Pubkey::try_find_program_address`: the returned
/// address and bump byte are a deterministic function of the seeds and the
/// program id alone, and `None` comes back only when no bump byte yields an
/// off-curve address.
#[verifier::external_body]
fn try_find_address(tag: &Vec<u8>, seed1: &AccountId, seed2: &AccountId, program_id: &AccountId) -> (r: Option<(AccountId, u8)>)
    ensures
        address_view(r) == program_address_of(tag@, seed1@, seed2@, program_id@),
{
    let pid = anchor_lang::prelude::Pubkey::new_from_array(program_id.bytes);
    let seeds: [&[u8]; 3] = [tag.as_slice(), &seed1.bytes, &seed2.bytes];
    anchor_lang::prelude::Pubkey::try_find_program_address(&seeds, &pid)
        .map(|(address, bump)| (AccountId { bytes: address.to_bytes() }, bump))
}

/// Derives the vault's signing authority for an (owner, asset) pair: the
/// custody account is created under this address, and withdrawals are
/// authorized by reproducing it from the same inputs and the returned bump.
pub fn derive_vault_authority(program_id: &AccountId, owner: &AccountId, mint: &AccountId) -> (r: Option<(AccountId, u8)>)
    ensures
        address_view(r) == program_address_of(authority_seed_tag(), owner@, mint@, program_id@),
{
    let tag = authority_seed_tag_bytes();
    try_find_address(&tag, owner, mint, program_id)
}

/// Derives the address at which the vault record for an (owner, asset) pair
/// is stored.
pub fn derive_vault_state_address(program_id: &AccountId, owner: &AccountId, mint: &AccountId) -> (r: Option<(AccountId, u8)>)
    ensures
        address_view(r) == program_address_of(state_seed_tag(), owner@, mint@, program_id@),
{
    let tag = state_seed_tag_bytes();
    try_find_address(&tag, owner, mint, program_id)
}

/// Builds the seed proof `(tag, owner, asset, bump)` that the ledger runtime
/// accepts in place of a signature for the derived authority.
pub fn vault_authority_signer_seeds(owner: &AccountId, mint: &AccountId, bump: u8) -> (r: Vec<Vec<u8>>)
    ensures
        r@.len() == 4,
        r@[0]@ == authority_seed_tag(),
        r@[1]@ == owner@,
        r@[2]@ == mint@,
        r@[3]@ == seq![bump],
{
    let mut r: Vec<Vec<u8>> = Vec::new();
    r.push(authority_seed_tag_bytes());
    r.push(account_id_to_vec(owner));
    r.push(account_id_to_vec(mint));
    let bump_seed: Vec<u8> = vec![bump];
    proof {
        assert(bump_seed@ =~= seq![bump]);
    }
    r.push(bump_seed);
    r
}

} // verus!
