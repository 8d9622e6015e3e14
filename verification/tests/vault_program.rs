use deposit::anchor::{AnchorError, Error, discriminator_of};
use deposit::model::{AccountInfo, Pubkey};
use deposit::vault::{self, ErrorCode, Vault, Initialize, DepositInto, DepositSPL, Withdraw, VAULT_SPACE};

fn find(seeds: Vec<Vec<u8>>, program: &Pubkey) -> (Pubkey, u8) {
    let refs: Vec<&[u8]> = seeds.iter().map(|s| s.as_slice()).collect();
    let (k, b) = anchor_lang::solana_program::pubkey::Pubkey::find_program_address(&refs, &anchor_lang::solana_program::pubkey::Pubkey::new_from_array(program.bytes));
    (Pubkey::new_from_array(k.to_bytes()), b)
}

fn key(b: u8) -> Pubkey {
    Pubkey::new_from_array([b; 32])
}

fn info(k: Pubkey, owner: Pubkey, lamports: u64, data: Vec<u8>, signer: bool, writable: bool, exec: bool) -> AccountInfo {
    AccountInfo { key: k, owner, lamports, data, is_signer: signer, is_writable: writable, executable: exec }
}

fn system() -> AccountInfo {
    info(Pubkey::new_from_array([0; 32]), key(0xee), 1, vec![], false, false, true)
}

fn vault_data(owner: [u8; 32]) -> Vec<u8> {
    let mut d = discriminator_of::<Vault>();
    d.extend_from_slice(&owner);
    d
}

#[test]
fn vault_discriminator_is_the_hash_of_its_name() {
    let h = anchor_lang::solana_program::hash::hash(b"account:Vault").to_bytes();
    assert_eq!(discriminator_of::<Vault>(), h[..8].to_vec());
}

#[test]
fn initialize_records_the_opener_and_stores_it() {
    let pid = vault::id();
    let name = b"savings".to_vec();
    let (pda, _bump) = find(vec![name.clone()], &pid);
    let v = info(pda, key(0), 0, vec![], false, true, false);
    let owner = info(key(5), key(0), 100, vec![], true, true, false);
    let (mut ctx, bump) = Initialize::try_accounts(&pid, v, owner, system(), &name).ok().unwrap();
    assert!(bump >= 1);
    assert_eq!(ctx.vault.info.data.len(), VAULT_SPACE);
    assert!(vault::initialize(&mut ctx, &name).is_ok());
    assert_eq!(ctx.vault.account.owner.bytes, [5u8; 32]);
    assert!(ctx.exit(&pid).is_ok());
    assert_eq!(ctx.vault.info.data, vault_data([5u8; 32]));
}

#[test]
fn initialize_refuses_a_vault_off_its_derived_address() {
    let pid = vault::id();
    let v = info(key(9), key(0), 0, vec![], false, true, false);
    let owner = info(key(5), key(0), 100, vec![], true, true, false);
    let r = Initialize::try_accounts(&pid, v, owner, system(), &b"savings".to_vec());
    assert_eq!(r.err(), Some(Error::Anchor(AnchorError::ConstraintSeeds)));
}

#[test]
fn initialize_checks_the_signer_before_the_program() {
    let pid = vault::id();
    let v = info(key(9), key(0), 0, vec![], false, true, false);
    let owner = info(key(5), key(0), 100, vec![], false, true, false);
    let not_system = info(key(3), key(0), 1, vec![], false, false, true);
    let r = Initialize::try_accounts(&pid, v, owner, not_system, &b"savings".to_vec());
    assert_eq!(r.err(), Some(Error::Anchor(AnchorError::AccountNotSigner)));
}

#[test]
fn withdraw_moves_lamports_for_the_owner() {
    let pid = vault::id();
    let v = info(key(4), pid, 1000, vault_data([5u8; 32]), false, true, false);
    let user = info(key(5), key(0), 10, vec![], true, true, false);
    let mut ctx = Withdraw::try_accounts(v, user, system()).ok().unwrap();
    assert!(vault::withdraw(&mut ctx, 300).is_ok());
    assert_eq!(ctx.vault.info.lamports, 700);
    assert_eq!(ctx.user.lamports, 310);
}

#[test]
fn withdraw_refuses_anyone_else() {
    let pid = vault::id();
    let v = info(key(4), pid, 1000, vault_data([5u8; 32]), false, true, false);
    let user = info(key(6), key(0), 10, vec![], true, true, false);
    let mut ctx = Withdraw::try_accounts(v, user, system()).ok().unwrap();
    assert_eq!(vault::withdraw(&mut ctx, 300), Err(Error::Program(ErrorCode::InvalidOwner)));
    assert_eq!(ctx.vault.info.lamports, 1000);
    assert_eq!(ctx.user.lamports, 10);
    assert_eq!(ErrorCode::InvalidOwner.code(), 6000);
    assert_eq!(ErrorCode::InvalidOwner.msg(), "User isn't the owner of this vault");
}

#[test]
fn withdraw_accounts_must_be_a_vault_of_this_program() {
    let pid = vault::id();
    let user = info(key(5), key(0), 10, vec![], true, true, false);
    let foreign = info(key(4), key(8), 1000, vault_data([5u8; 32]), false, true, false);
    assert_eq!(Withdraw::try_accounts(foreign, user, system()).err(), Some(Error::Anchor(AnchorError::AccountOwnedByWrongProgram)));
    let user = info(key(5), key(0), 10, vec![], true, true, false);
    let empty = info(key(4), key(0), 0, vec![], false, true, false);
    assert_eq!(Withdraw::try_accounts(empty, user, system()).err(), Some(Error::Anchor(AnchorError::AccountNotInitialized)));
    let user = info(key(5), key(0), 10, vec![], true, true, false);
    let short = info(key(4), pid, 1000, vec![1, 2, 3], false, true, false);
    assert_eq!(Withdraw::try_accounts(short, user, system()).err(), Some(Error::Anchor(AnchorError::AccountDiscriminatorNotFound)));
    let user = info(key(5), key(0), 10, vec![], true, true, false);
    let mut wrong = vault_data([5u8; 32]);
    wrong[0] ^= 1;
    let bad = info(key(4), pid, 1000, wrong, false, true, false);
    assert_eq!(Withdraw::try_accounts(bad, user, system()).err(), Some(Error::Anchor(AnchorError::AccountDiscriminatorMismatch)));
    let user = info(key(5), key(0), 10, vec![], true, true, false);
    let mut cut = vault_data([5u8; 32]);
    cut.truncate(20);
    let truncated = info(key(4), pid, 1000, cut, false, true, false);
    assert_eq!(Withdraw::try_accounts(truncated, user, system()).err(), Some(Error::Anchor(AnchorError::AccountDidNotDeserialize)));
}

#[test]
fn withdraw_accounts_must_be_writable() {
    let pid = vault::id();
    let v = info(key(4), pid, 1000, vault_data([5u8; 32]), false, false, false);
    let user = info(key(5), key(0), 10, vec![], true, true, false);
    assert_eq!(Withdraw::try_accounts(v, user, system()).err(), Some(Error::Anchor(AnchorError::ConstraintMut)));
    let v = info(key(4), pid, 1000, vault_data([5u8; 32]), false, true, false);
    let user = info(key(5), key(0), 10, vec![], true, false, false);
    assert_eq!(Withdraw::try_accounts(v, user, system()).err(), Some(Error::Anchor(AnchorError::ConstraintMut)));
    let v = info(key(4), pid, 1000, vault_data([5u8; 32]), false, true, false);
    let user = info(key(5), key(0), 10, vec![], true, true, false);
    let not_exec = info(Pubkey::new_from_array([0; 32]), key(0xee), 1, vec![], false, false, false);
    assert_eq!(Withdraw::try_accounts(v, user, not_exec).err(), Some(Error::Anchor(AnchorError::InvalidProgramExecutable)));
}

#[test]
fn deposits_are_system_transfers_into_the_vault() {
    let pid = vault::id();
    let v = info(key(4), pid, 1000, vault_data([5u8; 32]), false, true, false);
    let payer = info(key(7), key(0), 10, vec![], true, true, false);
    let mut ctx = DepositInto::try_accounts(v, payer, system()).ok().unwrap();
    let call = vault::deposit_into_pda(&ctx, 42);
    assert_eq!(call.instruction.accounts[0].pubkey.bytes, [7u8; 32]);
    assert_eq!(call.instruction.accounts[1].pubkey.bytes, [4u8; 32]);
    assert_eq!(call.instruction.data, vec![2, 0, 0, 0, 42, 0, 0, 0, 0, 0, 0, 0]);
    assert!(call.signer_seeds.is_empty());
    assert!(ctx.exit(&pid).is_ok());
    assert_eq!(ctx.vault.info.data, vault_data([5u8; 32]));

    let v = info(key(4), pid, 1000, vault_data([5u8; 32]), false, true, false);
    let payer = info(key(7), key(0), 10, vec![], true, true, false);
    let token = info(deposit::model::token_program_id(), key(0), 1, vec![], false, false, true);
    let spl = DepositSPL::try_accounts(v, payer, system(), token).ok().unwrap();
    let call = vault::deposit_spl(&spl, 42);
    assert_eq!(call.instruction.data, vec![2, 0, 0, 0, 42, 0, 0, 0, 0, 0, 0, 0]);

    let v = info(key(4), pid, 1000, vault_data([5u8; 32]), false, true, false);
    let payer = info(key(7), key(0), 10, vec![], true, true, false);
    let not_token = info(key(3), key(0), 1, vec![], false, false, true);
    assert_eq!(DepositSPL::try_accounts(v, payer, system(), not_token).err(), Some(Error::Anchor(AnchorError::InvalidProgramId)));
}

#[test]
fn initialize_needs_a_writable_vault() {
    let pid = vault::id();
    let name = b"savings".to_vec();
    let (pda, _bump) = find(vec![name.clone()], &pid);
    let v = info(pda, key(0), 0, vec![], false, false, false);
    let owner = info(key(5), key(0), 100, vec![], true, true, false);
    assert_eq!(Initialize::try_accounts(&pid, v, owner, system(), &name).err(), Some(Error::Anchor(AnchorError::ConstraintMut)));
}
