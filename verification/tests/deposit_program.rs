use deposit::anchor::{AnchorError, Error, ProgramError, discriminator_of};
use deposit::deposit::{
    self as program, CancelOrder, CancelOrderV2, DataV2, DepositBase, DepositNative, DepositSpl, Initialize,
    MintftAndCreateMetadata, NewOrder, NewOrderV3, WithdrawNative, WithdrawSpl, MAX_COIN_QTY,
    MAX_NATIVE_PC_QTY_INCLUDING_FEES, OPTION_PUBKEY_LEN,
};
use deposit::model::{Account, AccountInfo, Pubkey, associated_token_program_id, dex_program_id, metadata_program_id, rent_sysvar_id, token_program_id};
use deposit::token::{check_associated_address, load_mint, load_token_account};
use deposit::whitelist::{self, WhitelistPDA};
use anchor_lang::solana_program::pubkey::Pubkey as SolKey;
use std::str::FromStr;
use anchor_lang::solana_program::program_pack::Pack;
use anchor_spl::token::spl_token::state::{Account as SplAccount, AccountState, Mint as SplMint};

fn key(b: u8) -> Pubkey {
    Pubkey::new_from_array([b; 32])
}

fn info(k: Pubkey, owner: Pubkey, lamports: u64, data: Vec<u8>, signer: bool, writable: bool, exec: bool) -> AccountInfo {
    AccountInfo { key: k, owner, lamports, data, is_signer: signer, is_writable: writable, executable: exec }
}

fn plain(k: Pubkey) -> AccountInfo {
    info(k, key(0), 1, vec![], false, false, false)
}

fn system() -> AccountInfo {
    info(Pubkey::new_from_array([0; 32]), key(0xee), 1, vec![], false, false, true)
}

fn whitelist_program() -> AccountInfo {
    info(whitelist::id(), key(0xee), 1, vec![], false, false, true)
}

fn find(seeds: Vec<Vec<u8>>, program: &Pubkey) -> (Pubkey, u8) {
    let refs: Vec<&[u8]> = seeds.iter().map(|s| s.as_slice()).collect();
    let (k, b) = SolKey::find_program_address(&refs, &SolKey::new_from_array(program.bytes));
    (Pubkey::new_from_array(k.to_bytes()), b)
}

/// The addresses of one deposit: the deposit account, its authority, its
/// lamport vault and the depositor's whitelist entry, with their bumps.
struct Setup {
    deposit_account: Pubkey,
    pda_auth: Pubkey,
    auth_bump: u8,
    sol_vault: Pubkey,
    vault_bump: u8,
    entry: Pubkey,
    depositor: Pubkey,
}

fn setup() -> Setup {
    let pid = program::id();
    let deposit_account = key(0x11);
    let depositor = key(0x22);
    let (pda_auth, auth_bump) = find(vec![b"auth".to_vec(), deposit_account.bytes.to_vec()], &pid);
    let (sol_vault, vault_bump) = find(vec![b"sol_vault".to_vec(), pda_auth.bytes.to_vec()], &pid);
    let (entry, _) = find(vec![pda_auth.bytes.to_vec(), depositor.bytes.to_vec()], &whitelist::id());
    Setup { deposit_account, pda_auth, auth_bump, sol_vault, vault_bump, entry, depositor }
}

fn deposit_data(depositor: [u8; 32], auth_bump: u8, vault_bump: Option<u8>) -> Vec<u8> {
    let mut d = discriminator_of::<DepositBase>();
    d.extend_from_slice(&depositor);
    d.push(auth_bump);
    match vault_bump {
        Some(b) => {
            d.push(1);
            d.push(b);
        }
        None => {
            d.push(0);
            d.push(0);
        }
    }
    d
}

fn entry_info(s: &Setup) -> AccountInfo {
    info(s.entry, whitelist::id(), 1, discriminator_of::<WhitelistPDA>(), false, false, false)
}

fn native_accounts(s: &Setup, data: Vec<u8>) -> (AccountInfo, AccountInfo, AccountInfo, AccountInfo, AccountInfo) {
    let pid = program::id();
    (
        info(s.deposit_account, pid, 10, data, false, true, false),
        info(s.pda_auth, key(0), 0, vec![], false, false, false),
        info(s.sol_vault, key(0), 0, vec![], false, true, false),
        info(s.depositor, key(0), 1000, vec![], true, true, false),
        entry_info(s),
    )
}

#[test]
fn deposit_base_discriminator_is_the_hash_of_its_name() {
    let h = anchor_lang::solana_program::hash::hash(b"account:DepositBase").to_bytes();
    assert_eq!(discriminator_of::<DepositBase>(), h[..8].to_vec());
}

#[test]
fn account_sizes() {
    assert_eq!(DepositBase::LEN, 43);
    assert_eq!(OPTION_PUBKEY_LEN, 33);
    assert_eq!(deposit::deposit::Asset::LEN, 98);
    assert_eq!(deposit::deposit::Limit::LEN, 270);
}

#[test]
fn program_id_is_the_declared_one() {
    let k = SolKey::from_str("7YKyo13HtdB823RiWHacDR74wc7VeU8vkMZGJDP2nSUB").unwrap();
    assert_eq!(program::id().bytes, k.to_bytes());
}

#[test]
fn initialize_records_the_depositor_and_the_authority_bump() {
    let pid = program::id();
    let s = setup();
    let dep = info(s.deposit_account, key(0), 0, vec![], true, true, false);
    let auth = info(s.pda_auth, key(0), 0, vec![], false, false, false);
    let depositor = info(s.depositor, key(0), 1000, vec![], true, true, false);
    let (mut ctx, bumps) = Initialize::try_accounts(&pid, dep, auth, depositor, system()).ok().unwrap();
    assert_eq!(bumps.pda_auth, s.auth_bump);
    assert_eq!(ctx.deposit_account.info.data, vec![0u8; DepositBase::LEN]);
    assert!(program::initialize(&mut ctx, &bumps).is_ok());
    assert_eq!(ctx.deposit_account.account.deposit_auth.bytes, s.depositor.bytes);
    assert_eq!(ctx.deposit_account.account.auth_bump, s.auth_bump);
    assert_eq!(ctx.deposit_account.account.sol_vault_bump, None);
    assert!(ctx.exit(&pid).is_ok());
    assert_eq!(ctx.deposit_account.info.data, deposit_data(s.depositor.bytes, s.auth_bump, None));
    assert_eq!(ctx.deposit_account.info.owner.bytes, pid.bytes);
}

#[test]
fn initialize_refuses_an_authority_off_its_derived_address() {
    let pid = program::id();
    let s = setup();
    let dep = info(s.deposit_account, key(0), 0, vec![], true, true, false);
    let auth = info(key(0x33), key(0), 0, vec![], false, false, false);
    let depositor = info(s.depositor, key(0), 1000, vec![], true, true, false);
    let r = Initialize::try_accounts(&pid, dep, auth, depositor, system());
    assert_eq!(r.err(), Some(Error::Anchor(AnchorError::ConstraintSeeds)));
}

#[test]
fn initialize_needs_a_signing_depositor_and_the_system_program() {
    let pid = program::id();
    let s = setup();
    let dep = info(s.deposit_account, key(0), 0, vec![], true, true, false);
    let auth = info(s.pda_auth, key(0), 0, vec![], false, false, false);
    let depositor = info(s.depositor, key(0), 1000, vec![], false, true, false);
    let r = Initialize::try_accounts(&pid, dep, auth, depositor, system());
    assert_eq!(r.err(), Some(Error::Anchor(AnchorError::AccountNotSigner)));
    let dep = info(s.deposit_account, key(0), 0, vec![], true, true, false);
    let auth = info(s.pda_auth, key(0), 0, vec![], false, false, false);
    let depositor = info(s.depositor, key(0), 1000, vec![], true, true, false);
    let r = Initialize::try_accounts(&pid, dep, auth, depositor, plain(key(0x44)));
    assert_eq!(r.err(), Some(Error::Anchor(AnchorError::InvalidProgramId)));
    let dep = info(s.deposit_account, key(0), 0, vec![], true, true, false);
    let auth = info(s.pda_auth, key(0), 0, vec![], false, false, false);
    let depositor = info(s.depositor, key(0), 1000, vec![], true, false, false);
    let r = Initialize::try_accounts(&pid, dep, auth, depositor, system());
    assert_eq!(r.err(), Some(Error::Anchor(AnchorError::ConstraintMut)));
}

#[test]
fn deposit_then_withdraw_native() {
    let pid = program::id();
    let s = setup();
    let (dep, auth, vault, depositor, entry) = native_accounts(&s, deposit_data(s.depositor.bytes, s.auth_bump, None));
    let (mut ctx, bumps) =
        DepositNative::try_accounts(&pid, dep, auth, vault, depositor, entry, whitelist_program(), system()).ok().unwrap();
    assert_eq!(bumps.sol_vault, s.vault_bump);
    let call = program::deposit_native(&mut ctx, &bumps, 500);
    assert_eq!(call.instruction.program_id.bytes, [0u8; 32]);
    assert_eq!(call.instruction.accounts[0].pubkey.bytes, s.depositor.bytes);
    assert!(call.instruction.accounts[0].is_signer);
    assert_eq!(call.instruction.accounts[1].pubkey.bytes, s.sol_vault.bytes);
    assert_eq!(call.instruction.data, vec![2, 0, 0, 0, 0xf4, 1, 0, 0, 0, 0, 0, 0]);
    assert!(call.signer_seeds.is_empty());
    assert!(ctx.exit(&pid).is_ok());
    let written = ctx.deposit_account.info.data.clone();
    assert_eq!(written, deposit_data(s.depositor.bytes, s.auth_bump, Some(s.vault_bump)));

    let (dep, auth, vault, depositor, entry) = native_accounts(&s, written);
    let (ctx, _) =
        WithdrawNative::try_accounts(&pid, dep, auth, vault, depositor, entry, whitelist_program(), system()).ok().unwrap();
    let call = program::withdraw_native(&ctx, 200);
    assert_eq!(call.instruction.accounts[0].pubkey.bytes, s.sol_vault.bytes);
    assert_eq!(call.instruction.accounts[1].pubkey.bytes, s.depositor.bytes);
    assert_eq!(call.instruction.data, vec![2, 0, 0, 0, 200, 0, 0, 0, 0, 0, 0, 0]);
    assert_eq!(
        call.signer_seeds,
        vec![b"sol_vault".to_vec(), s.pda_auth.bytes.to_vec(), vec![s.vault_bump]]
    );
}

#[test]
fn deposit_native_refuses_another_depositor() {
    let pid = program::id();
    let s = setup();
    let (dep, auth, vault, depositor, entry) = native_accounts(&s, deposit_data([0x55; 32], s.auth_bump, None));
    let r = DepositNative::try_accounts(&pid, dep, auth, vault, depositor, entry, whitelist_program(), system());
    assert_eq!(r.err(), Some(Error::Anchor(AnchorError::ConstraintHasOne)));
}

#[test]
fn deposit_native_needs_the_whitelist_entry() {
    let pid = program::id();
    let s = setup();
    let (dep, auth, vault, depositor, _) = native_accounts(&s, deposit_data(s.depositor.bytes, s.auth_bump, None));
    let wrong = info(key(0x66), whitelist::id(), 1, discriminator_of::<WhitelistPDA>(), false, false, false);
    let r = DepositNative::try_accounts(&pid, dep, auth, vault, depositor, wrong, whitelist_program(), system());
    assert_eq!(r.err(), Some(Error::Anchor(AnchorError::ConstraintSeeds)));
    let (dep, auth, vault, depositor, _) = native_accounts(&s, deposit_data(s.depositor.bytes, s.auth_bump, None));
    let foreign = info(s.entry, key(0x77), 1, discriminator_of::<WhitelistPDA>(), false, false, false);
    let r = DepositNative::try_accounts(&pid, dep, auth, vault, depositor, foreign, whitelist_program(), system());
    assert_eq!(r.err(), Some(Error::Anchor(AnchorError::AccountOwnedByWrongProgram)));
    let (dep, auth, vault, depositor, entry) = native_accounts(&s, deposit_data(s.depositor.bytes, s.auth_bump, None));
    let r = DepositNative::try_accounts(&pid, dep, auth, vault, depositor, entry, plain(key(0x78)), system());
    assert_eq!(r.err(), Some(Error::Anchor(AnchorError::InvalidProgramId)));
}

#[test]
fn deposit_native_checks_the_vault_and_the_authority() {
    let pid = program::id();
    let s = setup();
    let (dep, _, vault, depositor, entry) = native_accounts(&s, deposit_data(s.depositor.bytes, s.auth_bump, None));
    let wrong_auth = info(key(0x12), key(0), 0, vec![], false, false, false);
    let r = DepositNative::try_accounts(&pid, dep, wrong_auth, vault, depositor, entry, whitelist_program(), system());
    assert_eq!(r.err(), Some(Error::Anchor(AnchorError::ConstraintSeeds)));
    let (dep, auth, _, depositor, entry) = native_accounts(&s, deposit_data(s.depositor.bytes, s.auth_bump, None));
    let owned_vault = info(s.sol_vault, pid, 0, vec![], false, true, false);
    let r = DepositNative::try_accounts(&pid, dep, auth, owned_vault, depositor, entry, whitelist_program(), system());
    assert_eq!(r.err(), Some(Error::Anchor(AnchorError::AccountNotSystemOwned)));
    let (dep, auth, _, depositor, entry) = native_accounts(&s, deposit_data(s.depositor.bytes, s.auth_bump, None));
    let fixed_vault = info(s.sol_vault, key(0), 0, vec![], false, false, false);
    let r = DepositNative::try_accounts(&pid, dep, auth, fixed_vault, depositor, entry, whitelist_program(), system());
    assert_eq!(r.err(), Some(Error::Anchor(AnchorError::ConstraintMut)));
}

#[test]
fn withdraw_native_checks_the_recorded_vault_bump() {
    let pid = program::id();
    let s = setup();
    let other = s.vault_bump.wrapping_sub(1);
    let (dep, auth, vault, depositor, entry) = native_accounts(&s, deposit_data(s.depositor.bytes, s.auth_bump, Some(other)));
    let r = WithdrawNative::try_accounts(&pid, dep, auth, vault, depositor, entry, whitelist_program(), system());
    assert_eq!(r.err(), Some(Error::Anchor(AnchorError::ConstraintSeeds)));
}

#[test]
fn deposit_account_of_another_program_is_refused() {
    let pid = program::id();
    let s = setup();
    let (_, auth, vault, depositor, entry) = native_accounts(&s, vec![]);
    let foreign = info(s.deposit_account, key(0x99), 10, deposit_data(s.depositor.bytes, s.auth_bump, None), false, true, false);
    let r = DepositNative::try_accounts(&pid, foreign, auth, vault, depositor, entry, whitelist_program(), system());
    assert_eq!(r.err(), Some(Error::Anchor(AnchorError::AccountOwnedByWrongProgram)));
}

fn deposit_account_value(s: &Setup) -> Account<DepositBase> {
    Account {
        info: info(s.deposit_account, program::id(), 10, deposit_data(s.depositor.bytes, s.auth_bump, None), false, true, false),
        account: DepositBase { deposit_auth: s.depositor, auth_bump: s.auth_bump, sol_vault_bump: None },
    }
}

fn token_data(mint: [u8; 32], owner: [u8; 32], amount: u64) -> Vec<u8> {
    let mut d = Vec::new();
    d.extend_from_slice(&mint);
    d.extend_from_slice(&owner);
    d.extend_from_slice(&amount.to_le_bytes());
    d.extend_from_slice(&[0u8; 36]);
    d.push(1);
    d.extend_from_slice(&[0u8; 12]);
    d.extend_from_slice(&[0u8; 8]);
    d.extend_from_slice(&[0u8; 36]);
    d
}

fn mint_data(supply: u64, decimals: u8) -> Vec<u8> {
    let mut d = vec![0u8; 36];
    d.extend_from_slice(&supply.to_le_bytes());
    d.push(decimals);
    d.push(1);
    d.extend_from_slice(&[0u8; 36]);
    d
}

fn token_info(k: Pubkey, mint: Pubkey, owner: Pubkey, amount: u64, writable: bool) -> AccountInfo {
    info(k, token_program_id(), 2_039_280, token_data(mint.bytes, owner.bytes, amount), false, writable, false)
}

fn ata(wallet: &Pubkey, mint: &Pubkey) -> Pubkey {
    let w = SolKey::new_from_array(wallet.bytes);
    let m = SolKey::new_from_array(mint.bytes);
    Pubkey::new_from_array(anchor_spl::associated_token::get_associated_token_address(&w, &m).to_bytes())
}

fn program_info(k: Pubkey) -> AccountInfo {
    info(k, key(0xee), 1, vec![], false, false, true)
}

#[test]
fn token_layouts_match_the_token_library() {
    let a = SplAccount {
        mint: SolKey::new_from_array([3; 32]),
        owner: SolKey::new_from_array([4; 32]),
        amount: 77,
        state: AccountState::Initialized,
        ..SplAccount::default()
    };
    let mut packed = vec![0u8; 165];
    SplAccount::pack(a, &mut packed).unwrap();
    assert_eq!(packed, token_data([3; 32], [4; 32], 77));
    let m = SplMint { supply: 500, decimals: 6, is_initialized: true, ..SplMint::default() };
    let mut packed = vec![0u8; 82];
    SplMint::pack(m, &mut packed).unwrap();
    assert_eq!(packed, mint_data(500, 6));
}

#[test]
fn token_accounts_are_read_through_the_token_library() {
    let mint = key(0x33);
    let acct = load_token_account::<()>(token_info(key(0x31), mint, key(0x44), 1234, true)).ok().unwrap();
    assert_eq!(acct.account.mint.bytes, [0x33; 32]);
    assert_eq!(acct.account.owner.bytes, [0x44; 32]);
    assert_eq!(acct.account.amount, 1234);
    let mut short = token_info(key(0x31), mint, key(0x44), 1, true);
    short.data.pop();
    assert_eq!(load_token_account::<()>(short).err(), Some(Error::Runtime(ProgramError::InvalidAccountData)));
    let mut fresh = token_info(key(0x31), mint, key(0x44), 1, true);
    fresh.data[108] = 0;
    assert_eq!(load_token_account::<()>(fresh).err(), Some(Error::Runtime(ProgramError::UninitializedAccount)));
    let mut bad_tag = token_info(key(0x31), mint, key(0x44), 1, true);
    bad_tag.data[72] = 2;
    assert_eq!(load_token_account::<()>(bad_tag).err(), Some(Error::Runtime(ProgramError::InvalidAccountData)));
    let foreign = info(key(0x31), key(0x99), 1, token_data(mint.bytes, [0x44; 32], 1), false, true, false);
    assert_eq!(load_token_account::<()>(foreign).err(), Some(Error::Anchor(AnchorError::AccountOwnedByWrongProgram)));
    let m = load_mint::<()>(info(mint, token_program_id(), 1, mint_data(9, 2), false, false, false)).ok().unwrap();
    assert_eq!((m.account.supply, m.account.decimals), (9, 2));
    let mut uninit = mint_data(9, 2);
    uninit[45] = 0;
    assert_eq!(
        load_mint::<()>(info(mint, token_program_id(), 1, uninit, false, false, false)).err(),
        Some(Error::Runtime(ProgramError::UninitializedAccount))
    );
}

#[test]
fn associated_address_is_the_libraries_one() {
    let wallet = key(0x21);
    let mint = key(0x33);
    let expected = ata(&wallet, &mint);
    assert!(check_associated_address::<()>(&wallet, &mint, &expected, AnchorError::ConstraintAssociated).is_ok());
    assert_eq!(
        check_associated_address::<()>(&wallet, &mint, &key(0x01), AnchorError::ConstraintAssociated),
        Err(Error::Anchor(AnchorError::ConstraintAssociated))
    );
}

struct SplAccounts {
    deposit_account: AccountInfo,
    pda_auth: AccountInfo,
    deposit_auth: AccountInfo,
    to: AccountInfo,
    from: AccountInfo,
    mint: AccountInfo,
    entry: AccountInfo,
}

fn deposit_spl_accounts(s: &Setup) -> SplAccounts {
    let mint = key(0x33);
    SplAccounts {
        deposit_account: info(s.deposit_account, program::id(), 10, deposit_data(s.depositor.bytes, s.auth_bump, None), false, false, false),
        pda_auth: plain(s.pda_auth),
        deposit_auth: info(s.depositor, key(0), 1000, vec![], true, true, false),
        to: token_info(ata(&s.pda_auth, &mint), mint, s.pda_auth, 0, true),
        from: token_info(key(0x32), mint, s.depositor, 100, true),
        mint: info(mint, token_program_id(), 1, mint_data(1000, 0), false, false, false),
        entry: entry_info(s),
    }
}

fn try_deposit_spl(a: SplAccounts) -> Result<(DepositSpl, u8), Error<()>> {
    DepositSpl::try_accounts(
        &program::id(), a.deposit_account, a.pda_auth, a.deposit_auth, a.to, a.from, a.mint,
        program_info(token_program_id()), program_info(associated_token_program_id()), a.entry,
        whitelist_program(), system(), 2_039_280,
    )
}

fn try_withdraw_spl(a: SplAccounts) -> Result<(WithdrawSpl, u8), Error<()>> {
    WithdrawSpl::try_accounts(
        &program::id(), a.deposit_account, a.pda_auth, a.deposit_auth, a.to, a.from, a.mint,
        program_info(token_program_id()), program_info(associated_token_program_id()), a.entry,
        whitelist_program(), system(),
    )
}

#[test]
fn spl_deposit_pays_into_the_authority_account() {
    let s = setup();
    let (ctx, _) = try_deposit_spl(deposit_spl_accounts(&s)).ok().unwrap();
    assert_eq!(ctx.to_token_acct.account.owner.bytes, s.pda_auth.bytes);
    let call = program::deposit_spl(&ctx, 7).ok().unwrap();
    assert_eq!(call.instruction.program_id.bytes, token_program_id().bytes);
    assert_eq!(call.instruction.data, vec![3, 7, 0, 0, 0, 0, 0, 0, 0]);
    assert_eq!(call.instruction.accounts[0].pubkey.bytes, [0x32; 32]);
    assert_eq!(call.instruction.accounts[1].pubkey.bytes, ata(&s.pda_auth, &key(0x33)).bytes);
    assert_eq!(call.instruction.accounts[2].pubkey.bytes, s.depositor.bytes);
    assert!(call.signer_seeds.is_empty());
}

#[test]
fn spl_deposit_refuses_a_receiving_account_that_is_not_the_authoritys() {
    let s = setup();
    let mut a = deposit_spl_accounts(&s);
    a.to = token_info(key(0x35), key(0x33), s.pda_auth, 0, true);
    assert_eq!(try_deposit_spl(a).err(), Some(Error::Anchor(AnchorError::AccountNotAssociatedTokenAccount)));
    let mut a = deposit_spl_accounts(&s);
    a.to = token_info(ata(&s.pda_auth, &key(0x33)), key(0x33), s.depositor, 0, true);
    assert_eq!(try_deposit_spl(a).err(), Some(Error::Anchor(AnchorError::ConstraintTokenOwner)));
    let mut a = deposit_spl_accounts(&s);
    a.to = token_info(ata(&s.pda_auth, &key(0x33)), key(0x36), s.pda_auth, 0, true);
    assert_eq!(try_deposit_spl(a).err(), Some(Error::Anchor(AnchorError::ConstraintTokenMint)));
    let mut a = deposit_spl_accounts(&s);
    a.to.lamports = 5;
    assert_eq!(try_deposit_spl(a).err(), Some(Error::Anchor(AnchorError::ConstraintRentExempt)));
}

#[test]
fn spl_deposit_needs_the_depositor_and_the_whitelist() {
    let s = setup();
    let mut a = deposit_spl_accounts(&s);
    a.deposit_account = info(s.deposit_account, program::id(), 10, deposit_data([0x55; 32], s.auth_bump, None), false, false, false);
    assert_eq!(try_deposit_spl(a).err(), Some(Error::Anchor(AnchorError::ConstraintHasOne)));
    let mut a = deposit_spl_accounts(&s);
    a.entry = info(key(0x66), whitelist::id(), 1, discriminator_of::<WhitelistPDA>(), false, false, false);
    assert_eq!(try_deposit_spl(a).err(), Some(Error::Anchor(AnchorError::ConstraintSeeds)));
    let mut a = deposit_spl_accounts(&s);
    a.from = plain(key(0x32));
    assert_eq!(try_deposit_spl(a).err(), Some(Error::Anchor(AnchorError::AccountOwnedByWrongProgram)));
}

#[test]
fn spl_withdrawal_draws_on_the_authority_account() {
    let s = setup();
    let mint = key(0x33);
    let mut a = deposit_spl_accounts(&s);
    a.from = token_info(ata(&s.pda_auth, &mint), mint, s.pda_auth, 50, true);
    a.to = token_info(key(0x41), mint, s.depositor, 0, true);
    let (ctx, _) = try_withdraw_spl(a).ok().unwrap();
    let call = program::withdraw_spl(&ctx, 9).ok().unwrap();
    assert_eq!(call.instruction.data, vec![3, 9, 0, 0, 0, 0, 0, 0, 0]);
    assert_eq!(call.instruction.accounts[0].pubkey.bytes, ata(&s.pda_auth, &mint).bytes);
    assert_eq!(call.instruction.accounts[1].pubkey.bytes, [0x41; 32]);
    assert_eq!(call.instruction.accounts[2].pubkey.bytes, s.pda_auth.bytes);
    assert!(call.instruction.accounts[2].is_signer);
    assert_eq!(call.signer_seeds, vec![b"auth".to_vec(), s.deposit_account.bytes.to_vec(), vec![s.auth_bump]]);
}

#[test]
fn spl_withdrawal_refuses_another_source() {
    let s = setup();
    let mint = key(0x33);
    let mut a = deposit_spl_accounts(&s);
    a.from = token_info(key(0x45), mint, s.pda_auth, 50, true);
    a.to = token_info(key(0x41), mint, s.depositor, 0, true);
    assert_eq!(try_withdraw_spl(a).err(), Some(Error::Anchor(AnchorError::ConstraintAssociated)));
    let mut a = deposit_spl_accounts(&s);
    a.from = token_info(ata(&s.pda_auth, &mint), mint, s.depositor, 50, true);
    a.to = token_info(key(0x41), mint, s.depositor, 0, true);
    assert_eq!(try_withdraw_spl(a).err(), Some(Error::Anchor(AnchorError::ConstraintTokenOwner)));
}

fn order_accounts() -> NewOrder {
    NewOrder::try_accounts(
        plain(key(1)), plain(key(2)), plain(key(3)), plain(key(4)), plain(key(5)), plain(key(6)),
        token_info(key(7), key(0x33), key(8), 10, true), plain(key(8)),
        token_info(key(9), key(0x33), key(0x70), 0, true), token_info(key(10), key(0x34), key(0x70), 0, true),
        program_info(token_program_id()), info(rent_sysvar_id(), key(0xee), 1, vec![0u8; 17], false, false, false),
        program_info(dex_program_id()),
    )
    .ok()
    .unwrap()
}

#[test]
fn order_accounts_must_be_token_accounts_and_the_rent_sysvar() {
    let r = NewOrder::try_accounts(
        plain(key(1)), plain(key(2)), plain(key(3)), plain(key(4)), plain(key(5)), plain(key(6)),
        plain(key(7)), plain(key(8)),
        token_info(key(9), key(0x33), key(0x70), 0, true), token_info(key(10), key(0x34), key(0x70), 0, true),
        program_info(token_program_id()), info(rent_sysvar_id(), key(0xee), 1, vec![0u8; 17], false, false, false),
        program_info(dex_program_id()),
    );
    assert_eq!(r.err(), Some(Error::Anchor(AnchorError::AccountOwnedByWrongProgram)));
    let r = CancelOrder::try_accounts(
        plain(key(1)), plain(key(2)), plain(key(3)), plain(key(4)), plain(key(5)), plain(key(6)),
        token_info(key(7), key(0x33), key(8), 10, true), plain(key(8)),
        token_info(key(9), key(0x33), key(0x70), 0, true), token_info(key(10), key(0x34), key(0x70), 0, true),
        program_info(token_program_id()), info(rent_sysvar_id(), key(0xee), 1, vec![0u8; 16], false, false, false),
        program_info(dex_program_id()),
    );
    assert_eq!(r.err(), Some(Error::Anchor(AnchorError::AccountSysvarMismatch)));
    let r = CancelOrder::try_accounts(
        plain(key(1)), plain(key(2)), plain(key(3)), plain(key(4)), plain(key(5)), plain(key(6)),
        token_info(key(7), key(0x33), key(8), 10, true), plain(key(8)),
        token_info(key(9), key(0x33), key(0x70), 0, true), token_info(key(10), key(0x34), key(0x70), 0, true),
        program_info(token_program_id()), info(rent_sysvar_id(), key(0xee), 1, vec![0u8; 17], false, false, false),
        program_info(key(0x12)),
    );
    assert_eq!(r.err(), Some(Error::Anchor(AnchorError::InvalidProgramId)));
}

#[test]
fn new_order_accounts_carry_over() {
    let ctx = order_accounts();
    let v3 = NewOrderV3::from(&ctx);
    assert_eq!(v3.market.key.bytes, [1; 32]);
    assert_eq!(v3.request_queue.key.bytes, [3; 32]);
    assert_eq!(v3.order_payer_token_account.key.bytes, [7; 32]);
    assert_eq!(v3.open_orders_authority.key.bytes, [8; 32]);
    assert_eq!(v3.rent.key.bytes, rent_sysvar_id().bytes);
}

#[test]
fn new_order_is_a_limit_sell() {
    let ctx = order_accounts();
    let call = program::new_order(&ctx, 42).ok().unwrap();
    assert_eq!(call.instruction.program_id.bytes, dex_program_id().bytes);
    let mut expected = vec![0u8, 10, 0, 0, 0, 1, 0, 0, 0];
    expected.extend_from_slice(&42u64.to_le_bytes());
    expected.extend_from_slice(&MAX_COIN_QTY.to_le_bytes());
    expected.extend_from_slice(&MAX_NATIVE_PC_QTY_INCLUDING_FEES.to_le_bytes());
    expected.extend_from_slice(&0u32.to_le_bytes());
    expected.extend_from_slice(&0u32.to_le_bytes());
    expected.extend_from_slice(&0u64.to_le_bytes());
    expected.extend_from_slice(&0u16.to_le_bytes());
    assert_eq!(call.instruction.data, expected);
    assert_eq!(MAX_COIN_QTY, 10000);
    assert_eq!(call.instruction.accounts.len(), 12);
    for (i, m) in call.instruction.accounts.iter().take(10).enumerate() {
        assert_eq!(m.pubkey.bytes, [i as u8 + 1; 32]);
    }
    assert_eq!(call.instruction.accounts[10].pubkey.bytes, token_program_id().bytes);
    assert_eq!(call.instruction.accounts[11].pubkey.bytes, rent_sysvar_id().bytes);
    assert!(call.instruction.accounts[7].is_signer);
    assert!(call.signer_seeds.is_empty());
}

fn cancel_accounts() -> CancelOrder {
    CancelOrder::try_accounts(
        plain(key(1)), plain(key(2)), plain(key(3)), plain(key(4)), plain(key(5)), plain(key(6)),
        token_info(key(7), key(0x33), key(8), 10, true), plain(key(8)),
        token_info(key(9), key(0x33), key(0x70), 0, true), token_info(key(10), key(0x34), key(0x70), 0, true),
        program_info(token_program_id()), info(rent_sysvar_id(), key(0xee), 1, vec![0u8; 17], false, false, false),
        program_info(dex_program_id()),
    )
    .ok()
    .unwrap()
}

#[test]
fn cancel_order_names_the_order() {
    let ctx = cancel_accounts();
    let v2 = CancelOrderV2::from(&ctx);
    assert_eq!(v2.event_queue.key.bytes, [4; 32]);
    assert_eq!(v2.open_orders_authority.key.bytes, [8; 32]);
    let call = program::cancel_order(&ctx, 77).ok().unwrap();
    let mut expected = vec![0u8, 11, 0, 0, 0, 1, 0, 0, 0];
    expected.extend_from_slice(&77u128.to_le_bytes());
    assert_eq!(call.instruction.data, expected);
    let keys: Vec<[u8; 32]> = call.instruction.accounts.iter().map(|m| m.pubkey.bytes).collect();
    assert_eq!(keys, vec![[1; 32], [5; 32], [6; 32], [2; 32], [8; 32], [4; 32]]);
}

#[test]
fn mint_with_placeholder_metadata() {
    let s = setup();
    let ctx = MintftAndCreateMetadata {
        deposit_account: deposit_account_value(&s),
        pda_auth: plain(s.pda_auth),
        metadata: plain(key(0x51)),
        mint: load_mint::<()>(info(key(0x52), token_program_id(), 1, mint_data(0, 0), false, true, false)).ok().unwrap(),
        edition: plain(key(0x53)),
        deposit_auth: plain(s.depositor),
        token_program: plain(token_program_id()),
        system_program: system(),
        rent: plain(rent_sysvar_id()),
    };
    let mint = plain(key(0x61));
    let mint_auth = plain(key(0x62));
    let data = DataV2 { name: "x".to_string(), symbol: "y".to_string(), uri: "z".to_string(), seller_fee_basis_points: 5 };
    let (init, create) = program::mint_nft_and_create_metadata(&ctx, &mint, &mint_auth, data).ok().unwrap();
    let mut expected = vec![20u8, 0];
    expected.extend_from_slice(&[0x62; 32]);
    expected.push(1);
    expected.extend_from_slice(&[0x62; 32]);
    assert_eq!(init.instruction.data, expected);
    assert_eq!(init.instruction.accounts[0].pubkey.bytes, [0x61; 32]);
    assert_eq!(create.instruction.program_id.bytes, metadata_program_id().bytes);
    assert_eq!(create.instruction.accounts[0].pubkey.bytes, [0x51; 32]);
    assert_eq!(create.instruction.accounts[1].pubkey.bytes, [0x61; 32]);
    assert_eq!(create.instruction.accounts[3].pubkey.bytes, [0x61; 32]);
    let other = program::mint_nft_and_create_metadata(
        &ctx,
        &mint,
        &mint_auth,
        DataV2 { name: "q".to_string(), symbol: "r".to_string(), uri: "s".to_string(), seller_fee_basis_points: 9 },
    )
    .ok()
    .unwrap();
    assert_eq!(other.1.instruction.data, create.instruction.data);
}

#[test]
fn withdraw_native_check_gives_nothing_without_a_vault_bump() {
    let pid = program::id();
    let s = setup();
    let (dep, auth, vault, depositor, entry) = native_accounts(&s, deposit_data(s.depositor.bytes, s.auth_bump, None));
    let r = WithdrawNative::try_accounts_checked(&pid, dep, auth, vault, depositor, entry, whitelist_program(), system());
    assert!(matches!(r, Ok(None)));
    let (dep, auth, vault, mut depositor, entry) = native_accounts(&s, deposit_data(s.depositor.bytes, s.auth_bump, None));
    depositor.is_signer = false;
    let r = WithdrawNative::try_accounts_checked(&pid, dep, auth, vault, depositor, entry, whitelist_program(), system());
    assert_eq!(r.err(), Some(Error::Anchor(AnchorError::AccountNotSigner)));
    let (dep, auth, vault, depositor, entry) = native_accounts(&s, deposit_data(s.depositor.bytes, s.auth_bump, Some(s.vault_bump)));
    let r = WithdrawNative::try_accounts_checked(&pid, dep, auth, vault, depositor, entry, whitelist_program(), system());
    assert!(matches!(r, Ok(Some(_))));
}

#[test]
fn receiving_account_is_created_only_where_missing() {
    assert!(program::needs_receiving_account(&plain(key(0x35))));
    assert!(!program::needs_receiving_account(&token_info(key(0x35), key(0x33), key(0x44), 0, true)));
}

#[test]
fn the_account_a_token_deposit_pays_into_is_a_withdrawal_source() {
    let s = setup();
    let mint = key(0x33);
    let a = deposit_spl_accounts(&s);
    let receiving = a.to.duplicate();
    assert!(try_deposit_spl(a).is_ok());
    let mut w = deposit_spl_accounts(&s);
    w.from = receiving;
    w.to = token_info(key(0x41), mint, s.depositor, 0, true);
    assert!(try_withdraw_spl(w).is_ok());
}

#[test]
fn repeated_deposits_record_the_same_vault_bump() {
    let pid = program::id();
    let s = setup();
    let mut data = deposit_data(s.depositor.bytes, s.auth_bump, None);
    for _ in 0..2 {
        let (dep, auth, vault, depositor, entry) = native_accounts(&s, data);
        let (mut ctx, bumps) =
            DepositNative::try_accounts(&pid, dep, auth, vault, depositor, entry, whitelist_program(), system()).ok().unwrap();
        program::deposit_native(&mut ctx, &bumps, 1);
        assert!(ctx.exit(&pid).is_ok());
        data = ctx.deposit_account.info.data.clone();
        assert_eq!(data, deposit_data(s.depositor.bytes, s.auth_bump, Some(s.vault_bump)));
    }
}
