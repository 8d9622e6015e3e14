use deposit::anchor::{AnchorError, Error, discriminator_of};
use deposit::model::{Account, AccountInfo, Pubkey};
use deposit::whitelist::{self, ErrorCode, Whitelist, WhitelistPDA, Initialize, AddWhitelist, RemoveWhitelist, WHITELIST_SPACE};

fn find(seeds: Vec<Vec<u8>>, program: &Pubkey) -> (Pubkey, u8) {
    let refs: Vec<&[u8]> = seeds.iter().map(|s| s.as_slice()).collect();
    let (k, b) = anchor_lang::solana_program::pubkey::Pubkey::find_program_address(&refs, &anchor_lang::solana_program::pubkey::Pubkey::new_from_array(program.bytes));
    (Pubkey::new_from_array(k.to_bytes()), b)
}

fn key(b: u8) -> Pubkey {
    Pubkey::new_from_array([b; 32])
}

fn info(k: Pubkey, owner: Pubkey, lamports: u64, data: Vec<u8>, signer: bool, writable: bool, exec: bool) -> AccountInfo {
    AccountInfo { key: k, owner, lamports, data, is_signer: signer, is_writable: writable, executable: exec }
}

fn system() -> AccountInfo {
    info(Pubkey::new_from_array([0; 32]), key(0xee), 1, vec![], false, false, true)
}

fn whitelist_data(auth: [u8; 32]) -> Vec<u8> {
    let mut d = discriminator_of::<Whitelist>();
    d.extend_from_slice(&auth);
    d
}

#[test]
fn whitelist_discriminators_are_hashes_of_the_names() {
    let h = anchor_lang::solana_program::hash::hash(b"account:Whitelist").to_bytes();
    assert_eq!(discriminator_of::<Whitelist>(), h[..8].to_vec());
    let h = anchor_lang::solana_program::hash::hash(b"account:WhitelistPDA").to_bytes();
    assert_eq!(discriminator_of::<WhitelistPDA>(), h[..8].to_vec());
}

#[test]
fn initialize_never_accepts_a_whitelist() {
    let pid = whitelist::id();
    let wl = info(key(4), key(0), 0, vec![], true, true, false);
    let init = info(key(5), key(0), 100, vec![], true, true, false);
    let r = Initialize::try_accounts(&pid, wl, init, system());
    assert_eq!(r.err(), Some(Error::Anchor(AnchorError::AccountDidNotDeserialize)));
    assert_eq!(AnchorError::AccountDidNotDeserialize.code(), 3003);
    assert_eq!(WHITELIST_SPACE, 16);
}

#[test]
fn initialize_handler_sets_the_authority() {
    let pid = whitelist::id();
    let mut ctx = Initialize {
        whitelist: Account {
            info: info(key(4), pid, 100, vec![0u8; WHITELIST_SPACE], true, true, false),
            account: Whitelist { auth: Pubkey::new_from_array([0; 32]) },
        },
        initializer: info(key(5), key(0), 100, vec![], true, true, false),
        system_program: system(),
    };
    assert!(whitelist::initialize(&mut ctx).is_ok());
    assert_eq!(ctx.whitelist.account.auth.bytes, [5u8; 32]);
    assert_eq!(ctx.exit(&pid), Err(Error::Anchor(AnchorError::AccountDidNotSerialize)));
}

#[test]
fn an_added_entry_is_written_and_can_be_removed() {
    let pid = whitelist::id();
    let user = key(9);
    let (entry_key, _) = find(vec![vec![5u8; 32], vec![9u8; 32]], &pid);
    let entry = info(entry_key, key(0), 0, vec![], false, true, false);
    let wl = info(key(4), pid, 100, whitelist_data([5u8; 32]), false, true, false);
    let signer = info(key(5), key(0), 100, vec![], true, true, false);
    let (mut ctx, _) = AddWhitelist::try_accounts(&pid, entry, wl, signer, system(), &user).ok().unwrap();
    assert!(whitelist::AddToWhitelist(&ctx, user).is_ok());
    assert!(ctx.exit(&pid).is_ok());
    assert_eq!(ctx.WhitelistPDA.info.data, discriminator_of::<WhitelistPDA>());
    assert_eq!(ctx.WhitelistPDA.info.data, vec![0x8d, 0xe1, 0x09, 0x74, 0xa1, 0xaa, 0x77, 0xe0]);
    assert_eq!(ctx.whitelist.info.data, whitelist_data([5u8; 32]));
    let mut entry = ctx.WhitelistPDA.info.duplicate();
    entry.lamports = 50;
    let removal = RemoveWhitelist::try_accounts(entry, ctx.whitelist.info.duplicate(), ctx.signer.duplicate(), system());
    let mut removal = removal.ok().unwrap();
    assert!(whitelist::RemoveFromWhitelist(&removal).is_ok());
    assert!(removal.exit(&pid).is_ok());
    assert_eq!(removal.signer.lamports, 150);
}

#[test]
fn add_is_for_the_authority_only() {
    let pid = whitelist::id();
    let user = key(9);
    let signer_key = key(5);
    let (entry_key, _) = find(vec![vec![5u8; 32], vec![9u8; 32]], &pid);
    let entry = info(entry_key, key(0), 0, vec![], false, true, false);
    let wl = info(key(4), pid, 100, whitelist_data([5u8; 32]), false, true, false);
    let signer = info(signer_key, key(0), 100, vec![], true, true, false);
    let (ctx, bump) = AddWhitelist::try_accounts(&pid, entry, wl, signer, system(), &user).ok().unwrap();
    assert!(bump >= 1);
    assert!(whitelist::AddToWhitelist(&ctx, user).is_ok());

    let (other_entry, _) = find(vec![vec![6u8; 32], vec![9u8; 32]], &pid);
    let entry = info(other_entry, key(0), 0, vec![], false, true, false);
    let wl = info(key(4), pid, 100, whitelist_data([5u8; 32]), false, true, false);
    let signer = info(key(6), key(0), 100, vec![], true, true, false);
    let (ctx, _) = AddWhitelist::try_accounts(&pid, entry, wl, signer, system(), &user).ok().unwrap();
    assert_eq!(whitelist::AddToWhitelist(&ctx, user), Err(Error::Program(ErrorCode::NotTheAuth)));
    assert_eq!(ErrorCode::NotTheAuth.msg(), "User isn't the authority");
}

#[test]
fn add_needs_the_entry_at_its_derived_address() {
    let pid = whitelist::id();
    let entry = info(key(8), key(0), 0, vec![], false, true, false);
    let wl = info(key(4), pid, 100, whitelist_data([5u8; 32]), false, true, false);
    let signer = info(key(5), key(0), 100, vec![], true, true, false);
    let r = AddWhitelist::try_accounts(&pid, entry, wl, signer, system(), &key(9));
    assert_eq!(r.err(), Some(Error::Anchor(AnchorError::ConstraintSeeds)));
}

#[test]
fn remove_closes_the_entry_into_the_signer() {
    let pid = whitelist::id();
    let entry = info(key(8), pid, 50, discriminator_of::<WhitelistPDA>(), false, true, false);
    let wl = info(key(4), pid, 100, whitelist_data([5u8; 32]), false, true, false);
    let signer = info(key(5), key(0), 100, vec![], true, true, false);
    let mut ctx = RemoveWhitelist::try_accounts(entry, wl, signer, system()).ok().unwrap();
    assert!(whitelist::RemoveFromWhitelist(&ctx).is_ok());
    assert!(ctx.exit(&pid).is_ok());
    assert_eq!(ctx.signer.lamports, 150);
    assert_eq!(ctx.WhitelistPDA.info.lamports, 0);
    assert!(ctx.WhitelistPDA.info.data.is_empty());
    assert_eq!(ctx.WhitelistPDA.info.owner.bytes, [0u8; 32]);
}

#[test]
fn remove_refuses_closing_into_itself_and_strangers() {
    let pid = whitelist::id();
    let entry = info(key(5), pid, 50, discriminator_of::<WhitelistPDA>(), true, true, false);
    let wl = info(key(4), pid, 100, whitelist_data([5u8; 32]), false, true, false);
    let signer = info(key(5), key(0), 100, vec![], true, true, false);
    assert_eq!(RemoveWhitelist::try_accounts(entry, wl, signer, system()).err(), Some(Error::Anchor(AnchorError::ConstraintClose)));

    let entry = info(key(8), pid, 50, discriminator_of::<WhitelistPDA>(), false, true, false);
    let wl = info(key(4), pid, 100, whitelist_data([5u8; 32]), false, true, false);
    let signer = info(key(7), key(0), 100, vec![], true, true, false);
    let ctx = RemoveWhitelist::try_accounts(entry, wl, signer, system()).ok().unwrap();
    assert_eq!(whitelist::RemoveFromWhitelist(&ctx), Err(Error::Program(ErrorCode::NotTheAuth)));
}

#[test]
fn initialize_checks_the_initializer_first() {
    let pid = whitelist::id();
    let wl = info(key(4), key(0), 0, vec![], false, false, false);
    let init = info(key(5), key(0), 100, vec![], false, true, false);
    assert_eq!(Initialize::try_accounts(&pid, wl, init, system()).err(), Some(Error::Anchor(AnchorError::AccountNotSigner)));
    let wl = info(key(4), key(0), 0, vec![], false, false, false);
    let init = info(key(5), key(0), 100, vec![], true, true, false);
    assert_eq!(Initialize::try_accounts(&pid, wl, init, system()).err(), Some(Error::Anchor(AnchorError::AccountDidNotDeserialize)));
}
