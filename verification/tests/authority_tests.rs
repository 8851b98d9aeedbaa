use anchor_lang::prelude::Pubkey;
use token_vault::account_id::AccountId;
use token_vault::authority::{
    derive_vault_authority, derive_vault_state_address, vault_authority_signer_seeds,
};

fn id(b: u8) -> AccountId {
    AccountId { bytes: [b; 32] }
}

#[test]
fn authority_derivation_matches_the_runtime() {
    let program = id(7);
    let owner = id(1);
    let mint = id(2);
    let got = derive_vault_authority(&program, &owner, &mint).expect("no viable bump");
    let pid = Pubkey::new_from_array(program.bytes);
    let expected = Pubkey::try_find_program_address(
        &[b"vault", &owner.bytes, &mint.bytes],
        &pid,
    )
    .expect("no viable bump");
    assert_eq!(got.0.bytes, expected.0.to_bytes());
    assert_eq!(got.1, expected.1);
}

#[test]
fn state_address_derivation_matches_the_runtime() {
    let program = id(7);
    let owner = id(1);
    let mint = id(2);
    let got = derive_vault_state_address(&program, &owner, &mint).expect("no viable bump");
    let pid = Pubkey::new_from_array(program.bytes);
    let expected = Pubkey::try_find_program_address(
        &[b"vault-state", &owner.bytes, &mint.bytes],
        &pid,
    )
    .expect("no viable bump");
    assert_eq!(got.0.bytes, expected.0.to_bytes());
    assert_eq!(got.1, expected.1);
}

#[test]
fn derivation_is_reproducible() {
    let a = derive_vault_authority(&id(7), &id(1), &id(2)).unwrap();
    let b = derive_vault_authority(&id(7), &id(1), &id(2)).unwrap();
    assert_eq!(a.0.bytes, b.0.bytes);
    assert_eq!(a.1, b.1);
}

#[test]
fn derivation_depends_on_its_inputs() {
    let base = derive_vault_authority(&id(7), &id(1), &id(2)).unwrap();
    let other_owner = derive_vault_authority(&id(7), &id(3), &id(2)).unwrap();
    let other_mint = derive_vault_authority(&id(7), &id(1), &id(4)).unwrap();
    let state = derive_vault_state_address(&id(7), &id(1), &id(2)).unwrap();
    assert_ne!(base.0.bytes, other_owner.0.bytes);
    assert_ne!(base.0.bytes, other_mint.0.bytes);
    assert_ne!(base.0.bytes, state.0.bytes);
    assert_ne!(base.0.bytes, [1u8; 32]);
    assert_ne!(base.0.bytes, [7u8; 32]);
}

#[test]
fn signer_seeds_reproduce_the_derivation_inputs() {
    let owner = id(1);
    let mint = id(2);
    let seeds = vault_authority_signer_seeds(&owner, &mint, 253);
    assert_eq!(seeds.len(), 4);
    assert_eq!(seeds[0], b"vault".to_vec());
    assert_eq!(seeds[1], vec![1u8; 32]);
    assert_eq!(seeds[2], vec![2u8; 32]);
    assert_eq!(seeds[3], vec![253u8]);
}

#[test]
fn signer_seeds_satisfy_the_runtime_as_a_proof() {
    let program = id(7);
    let owner = id(1);
    let mint = id(2);
    let (authority, bump) = derive_vault_authority(&program, &owner, &mint).unwrap();
    let seeds = vault_authority_signer_seeds(&owner, &mint, bump);
    let seed_refs: Vec<&[u8]> = seeds.iter().map(|s| s.as_slice()).collect();
    let pid = Pubkey::new_from_array(program.bytes);
    let reproduced = Pubkey::create_program_address(&seed_refs, &pid)
        .expect("the recorded bump must reproduce the authority");
    assert_eq!(reproduced.to_bytes(), authority.bytes);
}
