use deposit::anchor::{check_seeds_find, check_seeds_with_bump, creation, AnchorError, Creation, Error};
use deposit::model::{Pubkey, token_program_id, dex_program_id, metadata_program_id, rent_sysvar_id, associated_token_program_id, system_program_id};
use anchor_lang::solana_program::pubkey::Pubkey as SolKey;

fn key(b: u8) -> Pubkey {
    Pubkey::new_from_array([b; 32])
}

#[test]
fn program_ids_match_the_libraries() {
    assert_eq!(token_program_id().bytes, anchor_spl::token::ID.to_bytes());
    assert_eq!(dex_program_id().bytes, anchor_spl::dex::ID.to_bytes());
    assert_eq!(metadata_program_id().bytes, mpl_token_metadata::ID.to_bytes());
    assert_eq!(rent_sysvar_id().bytes, anchor_lang::solana_program::sysvar::rent::ID.to_bytes());
    assert_eq!(associated_token_program_id().bytes, anchor_spl::associated_token::ID.to_bytes());
    assert_eq!(system_program_id().bytes, anchor_lang::solana_program::system_program::ID.to_bytes());
}

#[test]
fn the_seeds_check_finds_the_runtimes_canonical_bump() {
    let program = key(7);
    let seeds = vec![b"auth".to_vec(), vec![1u8; 32]];
    let (expected, expected_bump) = SolKey::find_program_address(&[b"auth", &[1u8; 32]], &SolKey::new_from_array([7; 32]));
    let expected = Pubkey::new_from_array(expected.to_bytes());
    let bump = check_seeds_find::<()>(&seeds, &program, &expected).unwrap();
    assert_eq!(bump, expected_bump);
    assert!(bump >= 1);
    assert_eq!(check_seeds_find::<()>(&seeds, &program, &key(9)), Err(Error::Anchor(AnchorError::ConstraintSeeds)));
}

#[test]
fn the_seeds_check_with_a_bump_recreates_the_address() {
    let program = key(7);
    let seeds = vec![b"auth".to_vec(), vec![1u8; 32]];
    let (expected, bump) = SolKey::find_program_address(&[b"auth", &[1u8; 32]], &SolKey::new_from_array([7; 32]));
    let expected = Pubkey::new_from_array(expected.to_bytes());
    assert_eq!(check_seeds_with_bump::<()>(&seeds, bump, &program, &expected), Ok(()));
    assert_eq!(check_seeds_with_bump::<()>(&seeds, bump, &program, &key(9)), Err(Error::Anchor(AnchorError::ConstraintSeeds)));
}

#[test]
fn too_long_or_too_many_seeds_are_refused() {
    let program = key(7);
    let long = vec![vec![0u8; 33]];
    assert_eq!(check_seeds_with_bump::<()>(&long, 255, &program, &key(1)), Err(Error::Anchor(AnchorError::ConstraintSeeds)));
    let many: Vec<Vec<u8>> = (0..16).map(|i| vec![i as u8]).collect();
    assert_eq!(check_seeds_with_bump::<()>(&many, 255, &program, &key(1)), Err(Error::Anchor(AnchorError::ConstraintSeeds)));
    assert_eq!(check_seeds_find::<()>(&many, &program, &key(1)), Err(Error::BumpNotFound));
}

#[test]
fn account_creation_tops_up_to_the_rent_exempt_balance() {
    assert_eq!(creation(0, 2_039_280), Creation::Create { lamports: 2_039_280 });
    assert_eq!(creation(39_280, 2_039_280), Creation::Fund { top_up: 2_000_000 });
    assert_eq!(creation(3_000_000, 2_039_280), Creation::Fund { top_up: 0 });
    assert_eq!(creation(5, 0), Creation::Fund { top_up: 0 });
}
