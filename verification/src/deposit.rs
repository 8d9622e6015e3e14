//! A deposit program: a depositor opens a deposit account with a program
//! authority derived from it, pays lamports or tokens into vaults that
//! authority controls and takes them back, provided the whitelist program
//! holds an entry for the depositor; it also places and cancels orders on an
//! order book and mints a token with metadata.
use vstd::prelude::*;
use crate::model::{Pubkey, AccountInfo, Account, Cpi, Instruction, zero_key, meta, same_info, u16_le, u32_le, u64_le, system_program_id,
    token_program_key, dex_program_key, metadata_program_key, associated_token_program_key, token_program_id,
    associated_token_program_id, dex_program_id};
use crate::anchor::{AccountData, Error, first, lift, signer_error, program_error, mut_error, system_account_error,
    has_one_error, seeds_find_error, init_error, check_init, create_error, seeds_bump_error, load_error, check_signer, check_program, check_mut,
    check_system_account, check_has_one, check_seeds_find, check_seeds_with_bump, create, zeros, load, exit,
    exit_outcome, same_but_data, encoded, decoded, lemma_decode_encoded, AnchorError, ProgramError, rent_exempt_error, check_rent_exempt,
    rent_sysvar_error, check_rent_sysvar};
use crate::pda::{is_canonical_bump, create_outcome, with_bump, canonical_bump_recreates, canonical_bump_unique, no_viable_bump};
use crate::instructions::{system_transfer, token_transfer, initialize_mint2, dex_new_order, dex_cancel_order,
    create_metadata_accounts_v3, pubkey_option_packed, metadata_v3_data, side_code, order_type_code, self_trade_code,
    DexSide, DexOrderType, SelfTradeBehavior, side_index, order_type_index, self_trade_index};
use crate::token::{TokenAccount, Mint, token_account_error, mint_error, token_content, load_token_account, load_mint,
    associated_address_error, check_associated_address, is_associated_token_account, mint_layout, associated_token_seeds};
use crate::whitelist::{WhitelistPDA, program_key as whitelist_key, id as whitelist_id};

verus! {

/// The program's address, `7YKyo13HtdB823RiWHacDR74wc7VeU8vkMZGJDP2nSUB`.
pub open spec fn program_key() -> Seq<u8> {
    seq![97u8, 44, 150, 35, 139, 7, 68, 53, 203, 45, 101, 192, 137, 200, 218, 241,
        246, 48, 144, 60, 184, 112, 242, 190, 86, 126, 49, 156, 182, 193, 213, 4]
}

/// The program's address.
pub fn id() -> (r: Pubkey)
    ensures
        r@ == program_key(),
{
    let r = Pubkey::new_from_array([97u8, 44, 150, 35, 139, 7, 68, 53, 203, 45, 101, 192, 137, 200, 218, 241,
        246, 48, 144, 60, 184, 112, 242, 190, 86, 126, 49, 156, 182, 193, 213, 4]);
    assert(r@ =~= program_key());
    r
}

/// A deposit account: its depositor, the bump of its program authority and,
/// once lamports were deposited, the bump of its lamport vault.
#[derive(Clone, Copy, Debug)]
pub struct DepositBase {
    pub deposit_auth: Pubkey,
    pub auth_bump: u8,
    pub sol_vault_bump: Option<u8>,
}

impl View for DepositBase {
    type V = (Seq<u8>, u8, Option<u8>);

    open spec fn view(&self) -> (Seq<u8>, u8, Option<u8>) {
        (self.deposit_auth@, self.auth_bump, self.sol_vault_bump)
    }
}

impl DepositBase {
    /// The data space of a deposit account: discriminator, address, bump and
    /// optional bump.
    pub const LEN: usize = 8 + 32 + 1 + 1 + 1;
}

impl AccountData for DepositBase {
    open spec fn preimage() -> Seq<u8> {
        seq![97u8, 99, 99, 111, 117, 110, 116, 58, 68, 101, 112, 111, 115, 105, 116, 66, 97, 115, 101]
    }

    open spec fn body_of(v: (Seq<u8>, u8, Option<u8>)) -> Seq<u8> {
        v.0 + seq![v.1] + match v.2 {
            Some(b) => seq![1u8, b],
            None => seq![0u8],
        }
    }

    open spec fn parse(bytes: Seq<u8>) -> Option<(Seq<u8>, u8, Option<u8>)> {
        if bytes.len() < 34 {
            None
        } else if bytes[33] == 0 {
            Some((bytes.take(32), bytes[32], None))
        } else if bytes[33] == 1 && bytes.len() >= 35 {
            Some((bytes.take(32), bytes[32], Some(bytes[34])))
        } else {
            None
        }
    }

    open spec fn valid(v: (Seq<u8>, u8, Option<u8>)) -> bool {
        v.0.len() == 32
    }

    fn preimage_bytes() -> (r: Vec<u8>) {
        let r = vec![97u8, 99, 99, 111, 117, 110, 116, 58, 68, 101, 112, 111, 115, 105, 116, 66, 97, 115, 101];
        assert(r@ =~= Self::preimage());
        r
    }

    fn encode_body(&self) -> (r: Vec<u8>) {
        let mut r = self.deposit_auth.to_vec();
        r.push(self.auth_bump);
        match self.sol_vault_bump {
            Some(b) => {
                r.push(1u8);
                r.push(b);
            },
            None => {
                r.push(0u8);
            },
        }
        assert(r@ =~= Self::body_of(self@));
        r
    }

    fn decode_body(bytes: &Vec<u8>, start: usize) -> (r: Option<Self>) {
        let ghost rest = bytes@.skip(start as int);
        let deposit_auth = match Pubkey::read_at(bytes, start) {
            Some(k) => k,
            None => return None,
        };
        if bytes.len() - start < 34 {
            return None;
        }
        let auth_bump = bytes[start + 32];
        let tag = bytes[start + 33];
        assert(rest[32] == auth_bump && rest[33] == tag);
        if tag == 0 {
            Some(DepositBase { deposit_auth, auth_bump, sol_vault_bump: None })
        } else if tag == 1 && bytes.len() - start >= 35 {
            let b = bytes[start + 34];
            assert(rest[34] == b);
            Some(DepositBase { deposit_auth, auth_bump, sol_vault_bump: Some(b) })
        } else {
            None
        }
    }

    proof fn lemma_parse_body(v: (Seq<u8>, u8, Option<u8>), rest: Seq<u8>) {
        let b = Self::body_of(v) + rest;
        assert(b.take(32) =~= v.0);
        assert(b[32] == v.1);
    }

    proof fn lemma_valid(x: Self) {
    }
}

/// Length of an optional address in borsh: a tag and the address.
pub const OPTION_PUBKEY_LEN: usize = 1 + 32;

/// An asset of a limit order.
pub struct Asset {
    pub asset_type: String,
    pub asset_metadata: Option<Pubkey>,
    pub asset_mint: Option<Pubkey>,
}

impl Asset {
    /// The space the program reserves for an asset.
    pub const LEN: usize = 32 + OPTION_PUBKEY_LEN * 2;
}

/// A limit order: what is offered and what is asked for it.
pub struct Limit {
    pub asset_holding_pda: Option<Pubkey>,
    pub asset: Asset,
    pub ask_price_per_asset: u64,
    pub ask_asset: Asset,
    pub ask_asset_pda: Option<Pubkey>,
}

impl Limit {
    /// The space the program reserves for a limit order.
    pub const LEN: usize = OPTION_PUBKEY_LEN * 2 + Asset::LEN * 2 + 8;
}

/// The seeds of the program authority of a deposit account.
pub open spec fn auth_seeds(deposit_account: Seq<u8>) -> Seq<Seq<u8>> {
    seq![seq![97u8, 117, 116, 104], deposit_account]
}

/// The seeds of the lamport vault of a program authority.
pub open spec fn sol_vault_seeds(pda_auth: Seq<u8>) -> Seq<Seq<u8>> {
    seq![seq![115u8, 111, 108, 95, 118, 97, 117, 108, 116], pda_auth]
}

/// The seeds of the whitelist entry of a depositor, under the whitelist
/// program.
pub open spec fn entry_seeds(pda_auth: Seq<u8>, deposit_auth: Seq<u8>) -> Seq<Seq<u8>> {
    seq![pda_auth, deposit_auth]
}

/// Builds the seeds of the program authority of a deposit account.
pub fn make_auth_seeds(deposit_account: &Pubkey) -> (r: Vec<Vec<u8>>)
    ensures
        r.deep_view() == auth_seeds(deposit_account@),
{
    let a = vec![97u8, 117, 116, 104];
    let k = deposit_account.to_vec();
    assert(a.deep_view() =~= seq![97u8, 117, 116, 104]);
    assert(k.deep_view() =~= deposit_account@);
    let r = vec![a, k];
    assert(r.deep_view() =~= auth_seeds(deposit_account@));
    r
}

/// Builds the seeds of the lamport vault of a program authority.
pub fn make_sol_vault_seeds(pda_auth: &Pubkey) -> (r: Vec<Vec<u8>>)
    ensures
        r.deep_view() == sol_vault_seeds(pda_auth@),
{
    let a = vec![115u8, 111, 108, 95, 118, 97, 117, 108, 116];
    let k = pda_auth.to_vec();
    assert(a.deep_view() =~= seq![115u8, 111, 108, 95, 118, 97, 117, 108, 116]);
    assert(k.deep_view() =~= pda_auth@);
    let r = vec![a, k];
    assert(r.deep_view() =~= sol_vault_seeds(pda_auth@));
    r
}

/// Builds the seeds of the whitelist entry of a depositor.
pub fn make_entry_seeds(pda_auth: &Pubkey, deposit_auth: &Pubkey) -> (r: Vec<Vec<u8>>)
    ensures
        r.deep_view() == entry_seeds(pda_auth@, deposit_auth@),
{
    let a = pda_auth.to_vec();
    let k = deposit_auth.to_vec();
    assert(a.deep_view() =~= pda_auth@);
    assert(k.deep_view() =~= deposit_auth@);
    let r = vec![a, k];
    assert(r.deep_view() =~= entry_seeds(pda_auth@, deposit_auth@));
    r
}

/// The accounts that open a deposit account.
pub struct Initialize {
    pub deposit_account: Account<DepositBase>,
    pub pda_auth: AccountInfo,
    pub deposit_auth: AccountInfo,
    pub system_program: AccountInfo,
}

/// The bumps the framework found for `initialize`.
pub struct InitializeBumps {
    pub pda_auth: u8,
}

/// The error, if any, with which the framework refuses the accounts of
/// `initialize`, in the order in which it checks them.
pub open spec fn initialize_error(program_id: Seq<u8>, deposit_account: AccountInfo, pda_auth: AccountInfo, deposit_auth: AccountInfo, system_program: AccountInfo) -> Option<Error<()>> {
    first(lift(signer_error(deposit_auth)),
    first(lift(program_error(system_program, zero_key())),
    first(lift(create_error::<DepositBase>(DepositBase::LEN as nat)),
    first(lift(init_error(deposit_account, true)),
    first(seeds_find_error(auth_seeds(deposit_account.key@), program_id, pda_auth.key@),
    lift(mut_error(deposit_auth)))))))
}

impl Initialize {
    /// Checks the accounts of `initialize` as the framework does; returns
    /// them with the authority's bump. The deposit account is taken as the
    /// framework hands it over after the system program created it with
    /// `DepositBase::LEN` bytes for this program.
    pub fn try_accounts(program_id: &Pubkey, deposit_account: AccountInfo, pda_auth: AccountInfo, deposit_auth: AccountInfo, system_program: AccountInfo) -> (r: Result<(Initialize, InitializeBumps), Error<()>>)
        ensures
            match initialize_error(program_id@, deposit_account, pda_auth, deposit_auth, system_program) {
                Some(e) => r == Err::<(Initialize, InitializeBumps), Error<()>>(e),
                None => r matches Ok((ctx, bumps)) && {
                    &&& ctx.pda_auth == pda_auth && ctx.deposit_auth == deposit_auth && ctx.system_program == system_program
                    &&& ctx.deposit_account.info.key == deposit_account.key
                    &&& ctx.deposit_account.info.owner@ == program_id@
                    &&& ctx.deposit_account.info.lamports == deposit_account.lamports
                    &&& ctx.deposit_account.info.is_signer == deposit_account.is_signer
                    &&& ctx.deposit_account.info.is_writable == deposit_account.is_writable
                    &&& ctx.deposit_account.info.executable == deposit_account.executable
                    &&& ctx.deposit_account.info.data@ == zeros(DepositBase::LEN as nat)
                    &&& ctx.deposit_account.account@ == (zero_key(), 0u8, None::<u8>)
                    &&& is_canonical_bump(auth_seeds(deposit_account.key@), program_id@, pda_auth.key@, bumps.pda_auth)
                },
            },
    {
        if let Err(e) = check_signer(&deposit_auth) {
            return Err(Error::Anchor(e));
        }
        let system = system_program_id();
        if let Err(e) = check_program(&system_program, &system) {
            return Err(Error::Anchor(e));
        }
        proof {
            assert(zeros(DepositBase::LEN as nat).skip(8).take(32) =~= zero_key());
        }
        let acc = match create::<DepositBase>(deposit_account, DepositBase::LEN, program_id) {
            Ok(a) => a,
            Err(e) => return Err(Error::Anchor(e)),
        };
        if let Err(e) = check_init(&acc.info, true) {
            return Err(Error::Anchor(e));
        }
        let seeds = make_auth_seeds(&acc.info.key);
        let bump = match check_seeds_find::<()>(&seeds, program_id, &pda_auth.key) {
            Ok(b) => b,
            Err(e) => return Err(e),
        };
        if let Err(e) = check_mut(&deposit_auth) {
            return Err(Error::Anchor(e));
        }
        Ok((Initialize { deposit_account: acc, pda_auth, deposit_auth, system_program }, InitializeBumps { pda_auth: bump }))
    }

    /// Writes the deposit account back when the instruction ends.
    pub fn exit(&mut self, program_id: &Pubkey) -> (r: Result<(), Error<()>>)
        ensures
            same_but_data(final(self).deposit_account, old(self).deposit_account),
            final(self).pda_auth == old(self).pda_auth,
            final(self).deposit_auth == old(self).deposit_auth,
            final(self).system_program == old(self).system_program,
            ({
                let (res, data) = exit_outcome::<DepositBase>(old(self).deposit_account, program_key(), program_id@);
                &&& final(self).deposit_account.info.data@ == data
                &&& (r is Ok <==> res is Ok)
                &&& res matches Err(e) ==> r == Err::<(), Error<()>>(Error::Anchor(e))
            }),
    {
        let owner = id();
        match exit(&mut self.deposit_account, &owner, program_id) {
            Ok(()) => Ok(()),
            Err(e) => Err(Error::Anchor(e)),
        }
    }
}

/// Opens a deposit account: its depositor becomes the signer, and the
/// authority's bump is recorded.
pub fn initialize(ctx: &mut Initialize, bumps: &InitializeBumps) -> (r: Result<(), Error<()>>)
    ensures
        r is Ok,
        final(ctx).deposit_account.account.deposit_auth == old(ctx).deposit_auth.key,
        final(ctx).deposit_account.account.auth_bump == bumps.pda_auth,
        final(ctx).deposit_account.account.sol_vault_bump == old(ctx).deposit_account.account.sol_vault_bump,
        final(ctx).deposit_account.info == old(ctx).deposit_account.info,
        final(ctx).pda_auth == old(ctx).pda_auth,
        final(ctx).deposit_auth == old(ctx).deposit_auth,
        final(ctx).system_program == old(ctx).system_program,
{
    let key = ctx.deposit_auth.key;
    ctx.deposit_account.account.deposit_auth = key;
    ctx.deposit_account.account.auth_bump = bumps.pda_auth;
    Ok(())
}


/// The deposit account's content as the framework reads it.
pub open spec fn stored(deposit_account: AccountInfo) -> (Seq<u8>, u8, Option<u8>) {
    DepositBase::parse(deposit_account.data@.skip(8)).unwrap()
}

/// The accounts that pay lamports into the vault.
pub struct DepositNative {
    pub deposit_account: Account<DepositBase>,
    pub pda_auth: AccountInfo,
    pub sol_vault: AccountInfo,
    pub deposit_auth: AccountInfo,
    pub whithelist: Account<WhitelistPDA>,
    pub whitelist_program: AccountInfo,
    pub system_program: AccountInfo,
}

/// The bumps the framework found for `deposit_native`.
pub struct DepositNativeBumps {
    pub sol_vault: u8,
    pub whithelist: u8,
}

/// The accounts that take lamports out of the vault.
pub struct WithdrawNative {
    pub deposit_account: Account<DepositBase>,
    pub pda_auth: AccountInfo,
    pub sol_vault: AccountInfo,
    pub deposit_auth: AccountInfo,
    pub whithelist: Account<WhitelistPDA>,
    pub whitelist_program: AccountInfo,
    pub system_program: AccountInfo,
}

/// The bumps the framework found for `withdraw_native`.
pub struct WithdrawNativeBumps {
    pub whithelist: u8,
}

/// The errors of reading the accounts of a native deposit or withdrawal,
/// in the order of the fields.
pub open spec fn native_read_error(deposit_account: AccountInfo, sol_vault: AccountInfo, deposit_auth: AccountInfo, whithelist: AccountInfo, whitelist_program: AccountInfo, system_program: AccountInfo) -> Option<Error<()>> {
    first(lift(load_error::<DepositBase>(deposit_account, program_key())),
    first(lift(system_account_error(sol_vault)),
    first(lift(signer_error(deposit_auth)),
    first(lift(load_error::<WhitelistPDA>(whithelist, whitelist_key())),
    first(lift(program_error(whitelist_program, whitelist_key())),
    lift(program_error(system_program, zero_key())))))))
}

/// The error, if any, with which the framework refuses the accounts of
/// `deposit_native`, in the order in which it checks them.
pub open spec fn deposit_native_error(program_id: Seq<u8>, deposit_account: AccountInfo, pda_auth: AccountInfo, sol_vault: AccountInfo, deposit_auth: AccountInfo, whithelist: AccountInfo, whitelist_program: AccountInfo, system_program: AccountInfo) -> Option<Error<()>> {
    first(native_read_error(deposit_account, sol_vault, deposit_auth, whithelist, whitelist_program, system_program),
    first(lift(mut_error(deposit_account)),
    first(lift(has_one_error(stored(deposit_account).0, deposit_auth.key@)),
    first(seeds_bump_error(auth_seeds(deposit_account.key@), stored(deposit_account).1, program_id, pda_auth.key@),
    first(seeds_find_error(sol_vault_seeds(pda_auth.key@), program_id, sol_vault.key@),
    first(lift(mut_error(sol_vault)),
    first(lift(mut_error(deposit_auth)),
    seeds_find_error(entry_seeds(pda_auth.key@, deposit_auth.key@), whitelist_program.key@, whithelist.key@))))))))
}

/// The checks of a native withdrawal up to the lamport vault's, whose bump
/// the deposit account must then hold.
pub open spec fn withdraw_native_early_error(program_id: Seq<u8>, deposit_account: AccountInfo, pda_auth: AccountInfo, sol_vault: AccountInfo, deposit_auth: AccountInfo, whithelist: AccountInfo, whitelist_program: AccountInfo, system_program: AccountInfo) -> Option<Error<()>> {
    first(native_read_error(deposit_account, sol_vault, deposit_auth, whithelist, whitelist_program, system_program),
    first(lift(has_one_error(stored(deposit_account).0, deposit_auth.key@)),
    seeds_bump_error(auth_seeds(deposit_account.key@), stored(deposit_account).1, program_id, pda_auth.key@)))
}

/// The error, if any, with which the framework refuses the accounts of
/// `withdraw_native`, in the order in which it checks them.
pub open spec fn withdraw_native_error(program_id: Seq<u8>, deposit_account: AccountInfo, pda_auth: AccountInfo, sol_vault: AccountInfo, deposit_auth: AccountInfo, whithelist: AccountInfo, whitelist_program: AccountInfo, system_program: AccountInfo) -> Option<Error<()>> {
    first(withdraw_native_early_error(program_id, deposit_account, pda_auth, sol_vault, deposit_auth, whithelist, whitelist_program, system_program),
    first(seeds_bump_error(sol_vault_seeds(pda_auth.key@), stored(deposit_account).2.unwrap(), program_id, sol_vault.key@),
    first(lift(mut_error(sol_vault)),
    first(lift(mut_error(deposit_auth)),
    seeds_find_error(entry_seeds(pda_auth.key@, deposit_auth.key@), whitelist_program.key@, whithelist.key@)))))
}

/// Reads the accounts shared by native deposits and withdrawals.
fn read_native(deposit_account: AccountInfo, sol_vault: &AccountInfo, deposit_auth: &AccountInfo, whithelist: AccountInfo, whitelist_program: &AccountInfo, system_program: &AccountInfo) -> (r: Result<(Account<DepositBase>, Account<WhitelistPDA>), Error<()>>)
    ensures
        match native_read_error(deposit_account, *sol_vault, *deposit_auth, whithelist, *whitelist_program, *system_program) {
            Some(e) => r == Err::<(Account<DepositBase>, Account<WhitelistPDA>), Error<()>>(e),
            None => r matches Ok((dep, wl)) && dep.info == deposit_account && wl.info == whithelist
                && dep.account@ == stored(deposit_account),
        },
{
    let owner = id();
    let dep = match load::<DepositBase>(deposit_account, &owner) {
        Ok(a) => a,
        Err(e) => return Err(Error::Anchor(e)),
    };
    if let Err(e) = check_system_account(sol_vault) {
        return Err(Error::Anchor(e));
    }
    if let Err(e) = check_signer(deposit_auth) {
        return Err(Error::Anchor(e));
    }
    let wl_owner = whitelist_id();
    let wl = match load::<WhitelistPDA>(whithelist, &wl_owner) {
        Ok(a) => a,
        Err(e) => return Err(Error::Anchor(e)),
    };
    if let Err(e) = check_program(whitelist_program, &wl_owner) {
        return Err(Error::Anchor(e));
    }
    let system = system_program_id();
    if let Err(e) = check_program(system_program, &system) {
        return Err(Error::Anchor(e));
    }
    Ok((dep, wl))
}

impl DepositNative {
    /// Checks the accounts of `deposit_native` as the framework does; returns
    /// them with the bumps found.
    pub fn try_accounts(program_id: &Pubkey, deposit_account: AccountInfo, pda_auth: AccountInfo, sol_vault: AccountInfo, deposit_auth: AccountInfo, whithelist: AccountInfo, whitelist_program: AccountInfo, system_program: AccountInfo) -> (r: Result<(DepositNative, DepositNativeBumps), Error<()>>)
        ensures
            match deposit_native_error(program_id@, deposit_account, pda_auth, sol_vault, deposit_auth, whithelist, whitelist_program, system_program) {
                Some(e) => r == Err::<(DepositNative, DepositNativeBumps), Error<()>>(e),
                None => r matches Ok((ctx, bumps)) && {
                    &&& ctx.deposit_account.info == deposit_account && ctx.pda_auth == pda_auth
                    &&& ctx.sol_vault == sol_vault && ctx.deposit_auth == deposit_auth
                    &&& ctx.whithelist.info == whithelist && ctx.whitelist_program == whitelist_program
                    &&& ctx.system_program == system_program
                    &&& ctx.deposit_account.account@ == stored(deposit_account)
                    &&& is_canonical_bump(sol_vault_seeds(pda_auth.key@), program_id@, sol_vault.key@, bumps.sol_vault)
                    &&& is_canonical_bump(entry_seeds(pda_auth.key@, deposit_auth.key@), whitelist_program.key@, whithelist.key@, bumps.whithelist)
                },
            },
    {
        let (dep, wl) = match read_native(deposit_account, &sol_vault, &deposit_auth, whithelist, &whitelist_program, &system_program) {
            Ok(p) => p,
            Err(e) => return Err(e),
        };
        if let Err(e) = check_mut(&dep.info) {
            return Err(Error::Anchor(e));
        }
        if let Err(e) = check_has_one(&dep.account.deposit_auth, &deposit_auth) {
            return Err(Error::Anchor(e));
        }
        let a_seeds = make_auth_seeds(&dep.info.key);
        if let Err(e) = check_seeds_with_bump::<()>(&a_seeds, dep.account.auth_bump, program_id, &pda_auth.key) {
            return Err(e);
        }
        let v_seeds = make_sol_vault_seeds(&pda_auth.key);
        let vault_bump = match check_seeds_find::<()>(&v_seeds, program_id, &sol_vault.key) {
            Ok(b) => b,
            Err(e) => return Err(e),
        };
        if let Err(e) = check_mut(&sol_vault) {
            return Err(Error::Anchor(e));
        }
        if let Err(e) = check_mut(&deposit_auth) {
            return Err(Error::Anchor(e));
        }
        let e_seeds = make_entry_seeds(&pda_auth.key, &deposit_auth.key);
        let entry_bump = match check_seeds_find::<()>(&e_seeds, &whitelist_program.key, &wl.info.key) {
            Ok(b) => b,
            Err(e) => return Err(e),
        };
        Ok((DepositNative { deposit_account: dep, pda_auth, sol_vault, deposit_auth, whithelist: wl, whitelist_program, system_program },
            DepositNativeBumps { sol_vault: vault_bump, whithelist: entry_bump }))
    }

    /// Writes the deposit account back when the instruction ends.
    pub fn exit(&mut self, program_id: &Pubkey) -> (r: Result<(), Error<()>>)
        ensures
            same_but_data(final(self).deposit_account, old(self).deposit_account),
            final(self).pda_auth == old(self).pda_auth,
            final(self).sol_vault == old(self).sol_vault,
            final(self).deposit_auth == old(self).deposit_auth,
            final(self).whithelist == old(self).whithelist,
            final(self).whitelist_program == old(self).whitelist_program,
            final(self).system_program == old(self).system_program,
            ({
                let (res, data) = exit_outcome::<DepositBase>(old(self).deposit_account, program_key(), program_id@);
                &&& final(self).deposit_account.info.data@ == data
                &&& (r is Ok <==> res is Ok)
                &&& res matches Err(e) ==> r == Err::<(), Error<()>>(Error::Anchor(e))
            }),
    {
        let owner = id();
        match exit(&mut self.deposit_account, &owner, program_id) {
            Ok(()) => Ok(()),
            Err(e) => Err(Error::Anchor(e)),
        }
    }
}

/// What the framework's check of the accounts of `withdraw_native` gives:
/// an error; nothing, where the checks before the lamport vault's pass and
/// the deposit account holds no vault bump (the framework unwraps it and
/// gives up); or the accounts with the whitelist entry's bump.
pub open spec fn withdraw_native_checked(program_id: Seq<u8>, deposit_account: AccountInfo, pda_auth: AccountInfo, sol_vault: AccountInfo, deposit_auth: AccountInfo, whithelist: AccountInfo, whitelist_program: AccountInfo, system_program: AccountInfo, r: Result<Option<(WithdrawNative, WithdrawNativeBumps)>, Error<()>>) -> bool {
    match withdraw_native_early_error(program_id, deposit_account, pda_auth, sol_vault, deposit_auth, whithelist, whitelist_program, system_program) {
        Some(e) => r == Err::<Option<(WithdrawNative, WithdrawNativeBumps)>, Error<()>>(e),
        None => if stored(deposit_account).2 is None {
            r == Ok::<Option<(WithdrawNative, WithdrawNativeBumps)>, Error<()>>(None)
        } else {
            match withdraw_native_error(program_id, deposit_account, pda_auth, sol_vault, deposit_auth, whithelist, whitelist_program, system_program) {
                Some(e) => r == Err::<Option<(WithdrawNative, WithdrawNativeBumps)>, Error<()>>(e),
                None => r matches Ok(Some((ctx, bumps))) && withdraw_native_accepted(program_id, deposit_account, pda_auth, sol_vault, deposit_auth, whithelist, whitelist_program, system_program, ctx, bumps),
            }
        },
    }
}

/// The accounts of `withdraw_native` as the framework hands them over once
/// it accepted them.
pub open spec fn withdraw_native_accepted(program_id: Seq<u8>, deposit_account: AccountInfo, pda_auth: AccountInfo, sol_vault: AccountInfo, deposit_auth: AccountInfo, whithelist: AccountInfo, whitelist_program: AccountInfo, system_program: AccountInfo, ctx: WithdrawNative, bumps: WithdrawNativeBumps) -> bool {
    &&& ctx.deposit_account.info == deposit_account && ctx.pda_auth == pda_auth
    &&& ctx.sol_vault == sol_vault && ctx.deposit_auth == deposit_auth
    &&& ctx.whithelist.info == whithelist && ctx.whitelist_program == whitelist_program
    &&& ctx.system_program == system_program
    &&& ctx.deposit_account.account@ == stored(deposit_account)
    &&& is_canonical_bump(entry_seeds(pda_auth.key@, deposit_auth.key@), whitelist_program.key@, whithelist.key@, bumps.whithelist)
}

impl WithdrawNative {
    /// Checks the accounts of `withdraw_native` as the framework does, on
    /// any accounts; returns `None` where the framework would unwrap a
    /// missing vault bump.
    pub fn try_accounts_checked(program_id: &Pubkey, deposit_account: AccountInfo, pda_auth: AccountInfo, sol_vault: AccountInfo, deposit_auth: AccountInfo, whithelist: AccountInfo, whitelist_program: AccountInfo, system_program: AccountInfo) -> (r: Result<Option<(WithdrawNative, WithdrawNativeBumps)>, Error<()>>)
        ensures
            withdraw_native_checked(program_id@, deposit_account, pda_auth, sol_vault, deposit_auth, whithelist, whitelist_program, system_program, r),
    {
        let (dep, wl) = match read_native(deposit_account, &sol_vault, &deposit_auth, whithelist, &whitelist_program, &system_program) {
            Ok(p) => p,
            Err(e) => return Err(e),
        };
        if let Err(e) = check_has_one(&dep.account.deposit_auth, &deposit_auth) {
            return Err(Error::Anchor(e));
        }
        let a_seeds = make_auth_seeds(&dep.info.key);
        if let Err(e) = check_seeds_with_bump::<()>(&a_seeds, dep.account.auth_bump, program_id, &pda_auth.key) {
            return Err(e);
        }
        let vault_bump = match dep.account.sol_vault_bump {
            Some(b) => b,
            None => return Ok(None),
        };
        let v_seeds = make_sol_vault_seeds(&pda_auth.key);
        if let Err(e) = check_seeds_with_bump::<()>(&v_seeds, vault_bump, program_id, &sol_vault.key) {
            return Err(e);
        }
        if let Err(e) = check_mut(&sol_vault) {
            return Err(Error::Anchor(e));
        }
        if let Err(e) = check_mut(&deposit_auth) {
            return Err(Error::Anchor(e));
        }
        let e_seeds = make_entry_seeds(&pda_auth.key, &deposit_auth.key);
        let entry_bump = match check_seeds_find::<()>(&e_seeds, &whitelist_program.key, &wl.info.key) {
            Ok(b) => b,
            Err(e) => return Err(e),
        };
        Ok(Some((WithdrawNative { deposit_account: dep, pda_auth, sol_vault, deposit_auth, whithelist: wl, whitelist_program, system_program },
            WithdrawNativeBumps { whithelist: entry_bump })))
    }

    /// Checks the accounts of `withdraw_native` as the framework does;
    /// returns them with the whitelist entry's bump. Where the checks before
    /// the lamport vault's pass, the deposit account must hold the vault's
    /// bump: the framework unwraps it.
    pub fn try_accounts(program_id: &Pubkey, deposit_account: AccountInfo, pda_auth: AccountInfo, sol_vault: AccountInfo, deposit_auth: AccountInfo, whithelist: AccountInfo, whitelist_program: AccountInfo, system_program: AccountInfo) -> (r: Result<(WithdrawNative, WithdrawNativeBumps), Error<()>>)
        requires
            withdraw_native_early_error(program_id@, deposit_account, pda_auth, sol_vault, deposit_auth, whithelist, whitelist_program, system_program) is None
                ==> stored(deposit_account).2 is Some,
        ensures
            match withdraw_native_error(program_id@, deposit_account, pda_auth, sol_vault, deposit_auth, whithelist, whitelist_program, system_program) {
                Some(e) => r == Err::<(WithdrawNative, WithdrawNativeBumps), Error<()>>(e),
                None => r matches Ok((ctx, bumps)) && withdraw_native_accepted(program_id@, deposit_account, pda_auth, sol_vault, deposit_auth, whithelist, whitelist_program, system_program, ctx, bumps),
            },
    {
        match Self::try_accounts_checked(program_id, deposit_account, pda_auth, sol_vault, deposit_auth, whithelist, whitelist_program, system_program) {
            Ok(Some(p)) => Ok(p),
            Err(e) => Err(e),
            Ok(None) => {
                proof {
                    assert(false);
                }
                Err(Error::BumpNotFound)
            },
        }
    }
}

/// The transfer of `amount` lamports from `from` to `to` through the system
/// program.
pub open spec fn is_transfer(c: Cpi, from: Seq<u8>, to: Seq<u8>, amount: u64) -> bool {
    &&& c.instruction@.program_id == zero_key()
    &&& c.instruction@.accounts == seq![meta(from, true, true), meta(to, false, true)]
    &&& c.instruction@.data == u32_le(2) + u64_le(amount)
}

/// Pays `amount` lamports from the depositor into the vault and records the
/// vault's bump in the deposit account: the call to the system program that
/// pays.
pub fn deposit_native(ctx: &mut DepositNative, bumps: &DepositNativeBumps, amount: u64) -> (r: Cpi)
    ensures
        is_transfer(r, old(ctx).deposit_auth.key@, old(ctx).sol_vault.key@, amount),
        r.signer_seeds@.len() == 0,
        final(ctx).deposit_account.account.sol_vault_bump == Some(bumps.sol_vault),
        final(ctx).deposit_account.account.deposit_auth == old(ctx).deposit_account.account.deposit_auth,
        final(ctx).deposit_account.account.auth_bump == old(ctx).deposit_account.account.auth_bump,
        final(ctx).deposit_account.info == old(ctx).deposit_account.info,
        final(ctx).pda_auth == old(ctx).pda_auth,
        final(ctx).sol_vault == old(ctx).sol_vault,
        final(ctx).deposit_auth == old(ctx).deposit_auth,
        final(ctx).whithelist == old(ctx).whithelist,
        final(ctx).whitelist_program == old(ctx).whitelist_program,
        final(ctx).system_program == old(ctx).system_program,
{
    ctx.deposit_account.account.sol_vault_bump = Some(bumps.sol_vault);
    let ix = system_transfer(&ctx.deposit_auth.key, &ctx.sol_vault.key, amount);
    Cpi { instruction: ix, signer_seeds: Vec::new() }
}

/// Takes `amount` lamports out of the vault back to the depositor: the call
/// to the system program, which the program signs for the vault with the
/// vault's seeds and recorded bump.
pub fn withdraw_native(ctx: &WithdrawNative, amount: u64) -> (r: Cpi)
    requires
        ctx.deposit_account.account.sol_vault_bump is Some,
    ensures
        is_transfer(r, ctx.sol_vault.key@, ctx.deposit_auth.key@, amount),
        r.signer_seeds.deep_view() == with_bump(sol_vault_seeds(ctx.pda_auth.key@), ctx.deposit_account.account.sol_vault_bump.unwrap()),
{
    let bump = match ctx.deposit_account.account.sol_vault_bump {
        Some(b) => b,
        None => 0,
    };
    let mut seeds = make_sol_vault_seeds(&ctx.pda_auth.key);
    let b = vec![bump];
    assert(b.deep_view() =~= seq![bump]);
    seeds.push(b);
    assert(seeds.deep_view() =~= with_bump(sol_vault_seeds(ctx.pda_auth.key@), bump));
    let ix = system_transfer(&ctx.sol_vault.key, &ctx.deposit_auth.key, amount);
    Cpi { instruction: ix, signer_seeds: seeds }
}


/// A withdrawal signs for exactly the vault it empties: when the framework
/// accepts the accounts of `withdraw_native`, the vault's seeds with the
/// recorded bump (those `withdraw_native` signs with) derive the vault's
/// address, the depositor recorded in the deposit account signed, and the
/// authority's seeds with its recorded bump derive the authority.
pub proof fn withdraw_signs_for_its_vault(program_id: Seq<u8>, deposit_account: AccountInfo, pda_auth: AccountInfo, sol_vault: AccountInfo, deposit_auth: AccountInfo, whithelist: AccountInfo, whitelist_program: AccountInfo, system_program: AccountInfo)
    requires
        withdraw_native_early_error(program_id, deposit_account, pda_auth, sol_vault, deposit_auth, whithelist, whitelist_program, system_program) is None
            ==> stored(deposit_account).2 is Some,
        withdraw_native_error(program_id, deposit_account, pda_auth, sol_vault, deposit_auth, whithelist, whitelist_program, system_program) is None,
    ensures
        create_outcome(with_bump(sol_vault_seeds(pda_auth.key@), stored(deposit_account).2.unwrap()), program_id) == Ok::<Seq<u8>, crate::pda::PdaError>(sol_vault.key@),
        create_outcome(with_bump(auth_seeds(deposit_account.key@), stored(deposit_account).1), program_id) == Ok::<Seq<u8>, crate::pda::PdaError>(pda_auth.key@),
        stored(deposit_account).0 == deposit_auth.key@,
        deposit_auth.is_signer,
{
}

/// A native withdrawal pays only the recorded depositor: when the framework
/// accepts the accounts of `withdraw_native`, the call `withdraw_native`
/// returns is a transfer of `amount` lamports through the system program that
/// debits the vault alone and credits alone the depositor recorded in the
/// deposit account, who signed; and the program signs with seeds that derive
/// the vault and nothing else.
pub proof fn native_withdrawal_pays_the_depositor(program_id: Seq<u8>, deposit_account: AccountInfo, pda_auth: AccountInfo, sol_vault: AccountInfo, deposit_auth: AccountInfo, whithelist: AccountInfo, whitelist_program: AccountInfo, system_program: AccountInfo, c: Cpi, amount: u64)
    requires
        withdraw_native_early_error(program_id, deposit_account, pda_auth, sol_vault, deposit_auth, whithelist, whitelist_program, system_program) is None
            ==> stored(deposit_account).2 is Some,
        withdraw_native_error(program_id, deposit_account, pda_auth, sol_vault, deposit_auth, whithelist, whitelist_program, system_program) is None,
        is_transfer(c, sol_vault.key@, deposit_auth.key@, amount),
        c.signer_seeds.deep_view() == with_bump(sol_vault_seeds(pda_auth.key@), stored(deposit_account).2.unwrap()),
    ensures
        c.instruction@.program_id == zero_key(),
        c.instruction@.accounts.len() == 2,
        c.instruction@.accounts[0] == meta(sol_vault.key@, true, true),
        c.instruction@.accounts[1] == meta(stored(deposit_account).0, false, true),
        c.instruction@.data == u32_le(2) + u64_le(amount),
        deposit_auth.is_signer,
        create_outcome(c.signer_seeds.deep_view(), program_id) == Ok::<Seq<u8>, crate::pda::PdaError>(sol_vault.key@),
{
}

/// The vault bump a deposit account records, if any, is the canonical bump
/// of the lamport vault of the authority that the account's seeds and
/// recorded authority bump derive.
pub open spec fn vault_bump_recorded(program_id: Seq<u8>, deposit_account: Seq<u8>, v: (Seq<u8>, u8, Option<u8>)) -> bool {
    match v.2 {
        None => true,
        Some(b) => exists|pda: Seq<u8>, vault: Seq<u8>|
            create_outcome(with_bump(auth_seeds(deposit_account), v.1), program_id) == Ok::<Seq<u8>, crate::pda::PdaError>(pda)
            && #[trigger] is_canonical_bump(sol_vault_seeds(pda), program_id, vault, b),
    }
}

/// The recorded vault bump stays canonical and fixed: an opened deposit
/// account records none (`initialize` leaves it as opened); when the
/// framework accepts the accounts of `deposit_native`, the bump it records
/// (the canonical bump it found for the vault) keeps the account's record
/// canonical, and where the account already recorded a canonical bump, the
/// deposit records the same one again. No other instruction writes the
/// deposit account.
pub proof fn vault_bump_stays_canonical(program_id: Seq<u8>, deposit_account: AccountInfo, pda_auth: AccountInfo, sol_vault: AccountInfo, deposit_auth: AccountInfo, whithelist: AccountInfo, whitelist_program: AccountInfo, system_program: AccountInfo, bump: u8)
    requires
        deposit_native_error(program_id, deposit_account, pda_auth, sol_vault, deposit_auth, whithelist, whitelist_program, system_program) is None,
        is_canonical_bump(sol_vault_seeds(pda_auth.key@), program_id, sol_vault.key@, bump),
    ensures
        vault_bump_recorded(program_id, deposit_account.key@, (zero_key(), 0u8, None::<u8>)),
        vault_bump_recorded(program_id, deposit_account.key@, (stored(deposit_account).0, stored(deposit_account).1, Some(bump))),
        vault_bump_recorded(program_id, deposit_account.key@, stored(deposit_account)) && stored(deposit_account).2 is Some
            ==> stored(deposit_account).2 == Some(bump),
{
    let v = stored(deposit_account);
    assert(create_outcome(with_bump(auth_seeds(deposit_account.key@), v.1), program_id) == Ok::<Seq<u8>, crate::pda::PdaError>(pda_auth.key@));
    assert(is_canonical_bump(sol_vault_seeds(pda_auth.key@), program_id, sol_vault.key@, bump));
    let rec = (v.0, v.1, Some(bump));
    assert(vault_bump_recorded(program_id, deposit_account.key@, rec)) by {
        let pda = pda_auth.key@;
        let vault = sol_vault.key@;
        assert(create_outcome(with_bump(auth_seeds(deposit_account.key@), rec.1), program_id) == Ok::<Seq<u8>, crate::pda::PdaError>(pda));
        assert(is_canonical_bump(sol_vault_seeds(pda), program_id, vault, rec.2->Some_0));
    }
    if vault_bump_recorded(program_id, deposit_account.key@, v) && v.2 is Some {
        let b0 = v.2.unwrap();
        let (pda, other) = choose|pda: Seq<u8>, vault: Seq<u8>|
            create_outcome(with_bump(auth_seeds(deposit_account.key@), v.1), program_id) == Ok::<Seq<u8>, crate::pda::PdaError>(pda)
            && #[trigger] is_canonical_bump(sol_vault_seeds(pda), program_id, vault, b0);
        assert(pda == pda_auth.key@);
        canonical_bump_unique(sol_vault_seeds(pda_auth.key@), program_id, other, b0, sol_vault.key@, bump);
    }
}

/// What one instruction does to the content of the deposit account at
/// `deposit_account`: nothing (`withdraw_native`, `deposit_spl`,
/// `withdraw_spl` and the order and mint instructions never write it back),
/// or it records as vault bump a canonical bump of the lamport vault of the
/// authority that the account's seeds and recorded authority bump derive
/// (what an accepted `deposit_native` does).
pub open spec fn deposit_account_step(program_id: Seq<u8>, deposit_account: Seq<u8>, before: (Seq<u8>, u8, Option<u8>), after: (Seq<u8>, u8, Option<u8>)) -> bool {
    ||| after == before
    ||| exists|pda: Seq<u8>, vault: Seq<u8>, b: u8|
        create_outcome(with_bump(auth_seeds(deposit_account), before.1), program_id) == Ok::<Seq<u8>, crate::pda::PdaError>(pda)
        && #[trigger] is_canonical_bump(sol_vault_seeds(pda), program_id, vault, b)
        && after == (before.0, before.1, Some(b))
}

/// The step from the `i`-th content to the next in a run of instructions.
pub open spec fn step_at(program_id: Seq<u8>, deposit_account: Seq<u8>, states: Seq<(Seq<u8>, u8, Option<u8>)>, i: int) -> bool {
    deposit_account_step(program_id, deposit_account, states[i], states[i + 1])
}

/// An accepted deposit is such a step: when the framework accepts the
/// accounts of `deposit_native`, recording the canonical bump it found for
/// the vault (what `deposit_native` and the write-back do) is a step of the
/// deposit account.
pub proof fn accepted_deposit_is_a_step(program_id: Seq<u8>, deposit_account: AccountInfo, pda_auth: AccountInfo, sol_vault: AccountInfo, deposit_auth: AccountInfo, whithelist: AccountInfo, whitelist_program: AccountInfo, system_program: AccountInfo, bump: u8)
    requires
        deposit_native_error(program_id, deposit_account, pda_auth, sol_vault, deposit_auth, whithelist, whitelist_program, system_program) is None,
        is_canonical_bump(sol_vault_seeds(pda_auth.key@), program_id, sol_vault.key@, bump),
    ensures
        deposit_account_step(program_id, deposit_account.key@, stored(deposit_account), (stored(deposit_account).0, stored(deposit_account).1, Some(bump))),
{
    let v = stored(deposit_account);
    assert(create_outcome(with_bump(auth_seeds(deposit_account.key@), v.1), program_id) == Ok::<Seq<u8>, crate::pda::PdaError>(pda_auth.key@));
    assert(is_canonical_bump(sol_vault_seeds(pda_auth.key@), program_id, sol_vault.key@, bump));
}

/// Over any run of instructions on a deposit account opened without a vault
/// bump, the recorded vault bump is in every state none or the canonical
/// bump of the vault its authority derives, and once recorded it never
/// changes: later deposits record the same bump again.
pub proof fn vault_bump_canonical_over_any_run(program_id: Seq<u8>, deposit_account: Seq<u8>, states: Seq<(Seq<u8>, u8, Option<u8>)>)
    requires
        states.len() >= 1,
        states[0].2 is None,
        forall|i: int| 0 <= i < states.len() - 1 ==> #[trigger] step_at(program_id, deposit_account, states, i),
    ensures
        forall|i: int| 0 <= i < states.len() ==> #[trigger] vault_bump_recorded(program_id, deposit_account, states[i]),
        forall|i: int| 0 <= i < states.len() ==> (#[trigger] states[i]).1 == states[0].1,
        forall|i: int, j: int| #![trigger states[i], states[j]]
            0 <= i <= j < states.len() && states[i].2 is Some ==> states[j].2 == states[i].2,
    decreases states.len(),
{
    let n = states.len() as int;
    if n == 1 {
        return;
    }
    let prev = states.drop_last();
    assert forall|i: int| 0 <= i < prev.len() - 1 implies #[trigger] step_at(program_id, deposit_account, prev, i) by {
        assert(step_at(program_id, deposit_account, states, i));
        assert(prev[i] == states[i] && prev[i + 1] == states[i + 1]);
    }
    vault_bump_canonical_over_any_run(program_id, deposit_account, prev);
    let before = states[n - 2];
    let after = states[n - 1];
    assert(prev[n - 2] == before);
    assert(step_at(program_id, deposit_account, states, n - 2));
    assert(vault_bump_recorded(program_id, deposit_account, prev[n - 2]));
    assert(prev[n - 2].1 == prev[0].1);
    if after != before {
        let (pda, vault, b) = choose|pda: Seq<u8>, vault: Seq<u8>, b: u8|
            create_outcome(with_bump(auth_seeds(deposit_account), before.1), program_id) == Ok::<Seq<u8>, crate::pda::PdaError>(pda)
            && #[trigger] is_canonical_bump(sol_vault_seeds(pda), program_id, vault, b)
            && after == (before.0, before.1, Some(b));
        assert(vault_bump_recorded(program_id, deposit_account, after)) by {
            assert(create_outcome(with_bump(auth_seeds(deposit_account), after.1), program_id) == Ok::<Seq<u8>, crate::pda::PdaError>(pda));
            assert(is_canonical_bump(sol_vault_seeds(pda), program_id, vault, after.2->Some_0));
        }
        if before.2 is Some {
            let b0 = before.2->Some_0;
            let (pda0, vault0) = choose|pda0: Seq<u8>, vault0: Seq<u8>|
                create_outcome(with_bump(auth_seeds(deposit_account), before.1), program_id) == Ok::<Seq<u8>, crate::pda::PdaError>(pda0)
                && #[trigger] is_canonical_bump(sol_vault_seeds(pda0), program_id, vault0, b0);
            assert(pda0 == pda);
            canonical_bump_unique(sol_vault_seeds(pda), program_id, vault0, b0, vault, b);
        }
    }
    assert forall|i: int| 0 <= i < n implies #[trigger] vault_bump_recorded(program_id, deposit_account, states[i]) by {
        if i < n - 1 {
            assert(prev[i] == states[i]);
        }
    }
    assert forall|i: int| 0 <= i < n implies (#[trigger] states[i]).1 == states[0].1 by {
        if i < n - 1 {
            assert(prev[i] == states[i]);
        }
        assert(prev[0] == states[0]);
    }
    assert forall|i: int, j: int| #![trigger states[i], states[j]]
        0 <= i <= j < n && states[i].2 is Some implies states[j].2 == states[i].2 by {
        if j < n - 1 {
            assert(prev[i] == states[i]);
            assert(prev[j] == states[j]);
        } else if i < n - 1 {
            assert(prev[i] == states[i]);
            assert(prev[n - 2] == states[n - 2]);
            assert(states[n - 2].2 == states[i].2);
        }
    }
}

/// Deposits and withdrawals need the whitelist: when the framework accepts
/// the accounts of `deposit_native` or `withdraw_native`, the whitelist
/// account is owned by the whitelist program, which is the one given, and
/// sits at the canonical address derived under it from the program
/// authority and the depositor.
pub proof fn native_needs_whitelist_entry(program_id: Seq<u8>, deposit_account: AccountInfo, pda_auth: AccountInfo, sol_vault: AccountInfo, deposit_auth: AccountInfo, whithelist: AccountInfo, whitelist_program: AccountInfo, system_program: AccountInfo)
    requires
        deposit_native_error(program_id, deposit_account, pda_auth, sol_vault, deposit_auth, whithelist, whitelist_program, system_program) is None
        || ((withdraw_native_early_error(program_id, deposit_account, pda_auth, sol_vault, deposit_auth, whithelist, whitelist_program, system_program) is None
                ==> stored(deposit_account).2 is Some)
            && withdraw_native_error(program_id, deposit_account, pda_auth, sol_vault, deposit_auth, whithelist, whitelist_program, system_program) is None),
    ensures
        whithelist.owner@ == whitelist_key(),
        whitelist_program.key@ == whitelist_key(),
        exists|b: u8| is_canonical_bump(entry_seeds(pda_auth.key@, deposit_auth.key@), whitelist_key(), whithelist.key@, b),
{
}

/// What a deposit records lets the depositor withdraw: the bump that
/// `deposit_native` stores is the vault's canonical bump, and the vault
/// check of `withdraw_native`, made with that bump, accepts the same vault.
pub proof fn deposited_vault_is_withdrawable(program_id: Seq<u8>, pda_auth: Seq<u8>, sol_vault: Seq<u8>, bump: u8)
    requires
        is_canonical_bump(sol_vault_seeds(pda_auth), program_id, sol_vault, bump),
    ensures
        seeds_bump_error::<()>(sol_vault_seeds(pda_auth), bump, program_id, sol_vault) is None,
{
    canonical_bump_recreates(sol_vault_seeds(pda_auth), program_id, sol_vault, bump);
}

/// A deposit account always fits its space and reads back as written: its
/// encoding takes at most `DepositBase::LEN` bytes, and whatever follows it,
/// the framework reads the same content back.
pub proof fn deposit_account_round_trip(v: (Seq<u8>, u8, Option<u8>), rest: Seq<u8>)
    requires
        v.0.len() == 32,
    ensures
        encoded::<DepositBase>(v).len() <= DepositBase::LEN,
        decoded::<DepositBase>(encoded::<DepositBase>(v) + rest) == Some(v),
{
    lemma_decode_encoded::<DepositBase>(v, rest);
}


/// The accounts that pay tokens into the authority's token account.
pub struct DepositSpl {
    pub deposit_account: Account<DepositBase>,
    pub pda_auth: AccountInfo,
    pub deposit_auth: AccountInfo,
    pub to_token_acct: Account<TokenAccount>,
    pub from_token_acct: Account<TokenAccount>,
    pub token_mint: Account<Mint>,
    pub token_program: AccountInfo,
    pub associated_token_program: AccountInfo,
    pub whithelist: Account<WhitelistPDA>,
    pub whitelist_program: AccountInfo,
    pub system_program: AccountInfo,
}

/// The accounts that take tokens out of the authority's token account.
pub struct WithdrawSpl {
    pub deposit_account: Account<DepositBase>,
    pub pda_auth: AccountInfo,
    pub deposit_auth: AccountInfo,
    pub to_token_acct: Account<TokenAccount>,
    pub from_token_acct: Account<TokenAccount>,
    pub token_mint: Account<Mint>,
    pub token_program: AccountInfo,
    pub associated_token_program: AccountInfo,
    pub whithelist: Account<WhitelistPDA>,
    pub whitelist_program: AccountInfo,
    pub system_program: AccountInfo,
}

/// The errors of reading the accounts that token deposits and withdrawals
/// share, from the source token account on, in the order of the fields.
pub open spec fn spl_read_error(from_token_acct: AccountInfo, token_mint: AccountInfo, token_program: AccountInfo, associated_token_program: AccountInfo, whithelist: AccountInfo, whitelist_program: AccountInfo, system_program: AccountInfo) -> Option<Error<()>> {
    first(token_account_error(from_token_acct),
    first(mint_error(token_mint),
    first(lift(program_error(token_program, token_program_key())),
    first(lift(program_error(associated_token_program, associated_token_program_key())),
    first(lift(load_error::<WhitelistPDA>(whithelist, whitelist_key())),
    first(lift(program_error(whitelist_program, whitelist_key())),
    lift(program_error(system_program, zero_key()))))))))
}

/// The checks on the depositor and the program authority: the deposit
/// account at `deposit_account`, holding `stored`, must name the depositor,
/// its recorded bump must derive the authority, and the depositor must be
/// writable.
pub open spec fn depositor_error(program_id: Seq<u8>, deposit_account: Seq<u8>, stored: (Seq<u8>, u8, Option<u8>), pda_auth: Seq<u8>, deposit_auth: AccountInfo) -> Option<Error<()>> {
    first(lift(has_one_error(stored.0, deposit_auth.key@)),
    first(seeds_bump_error(auth_seeds(deposit_account), stored.1, program_id, pda_auth),
    lift(mut_error(deposit_auth))))
}

/// The error of a token account whose owner is not `owner`, if any.
pub open spec fn token_owner_error(token_acct: AccountInfo, owner: Seq<u8>) -> Option<Error<()>> {
    if token_content(token_acct).1 != owner { Some(Error::Anchor(AnchorError::ConstraintTokenOwner)) } else { None }
}

/// The checks the framework makes on the token account it receives tokens
/// into, which it had the associated token account program create where it
/// was missing: a token account of `token_mint` owned by the authority,
/// held by the token program, at the authority's associated address,
/// writable and exempt from rent (`rent_minimum` being the least balance the
/// cluster's rent exempts for a token account).
pub open spec fn receiving_account_error(to_token_acct: AccountInfo, token_mint: AccountInfo, pda_auth: AccountInfo, token_program: AccountInfo, rent_minimum: u64) -> Option<Error<()>> {
    first(token_account_error(to_token_acct),
    first(if token_content(to_token_acct).0 != token_mint.key@ { Some(Error::Anchor(AnchorError::ConstraintTokenMint)) } else { None },
    first(token_owner_error(to_token_acct, pda_auth.key@),
    first(if to_token_acct.owner@ != token_program.key@ { Some(Error::Anchor(AnchorError::ConstraintAssociatedTokenTokenProgram)) } else { None },
    first(associated_address_error(pda_auth.key@, token_mint.key@, to_token_acct.key@, AnchorError::AccountNotAssociatedTokenAccount),
    first(lift(mut_error(to_token_acct)),
    lift(rent_exempt_error(to_token_acct, rent_minimum))))))))
}

/// The error, if any, with which the framework refuses the accounts of
/// `deposit_spl`, in the order in which it checks them.
pub open spec fn deposit_spl_error(program_id: Seq<u8>, deposit_account: AccountInfo, pda_auth: AccountInfo, deposit_auth: AccountInfo, to_token_acct: AccountInfo, from_token_acct: AccountInfo, token_mint: AccountInfo, token_program: AccountInfo, associated_token_program: AccountInfo, whithelist: AccountInfo, whitelist_program: AccountInfo, system_program: AccountInfo, rent_minimum: u64) -> Option<Error<()>> {
    first(lift(load_error::<DepositBase>(deposit_account, program_key())),
    first(lift(signer_error(deposit_auth)),
    first(spl_read_error(from_token_acct, token_mint, token_program, associated_token_program, whithelist, whitelist_program, system_program),
    first(receiving_account_error(to_token_acct, token_mint, pda_auth, token_program, rent_minimum),
    first(depositor_error(program_id, deposit_account.key@, stored(deposit_account), pda_auth.key@, deposit_auth),
    first(lift(mut_error(from_token_acct)),
    seeds_find_error(entry_seeds(pda_auth.key@, deposit_auth.key@), whitelist_program.key@, whithelist.key@)))))))
}

/// The error, if any, with which the framework refuses the accounts of
/// `withdraw_spl`, in the order in which it checks them: the source must be
/// the authority's associated token account for `token_mint`.
pub open spec fn withdraw_spl_error(program_id: Seq<u8>, deposit_account: AccountInfo, pda_auth: AccountInfo, deposit_auth: AccountInfo, to_token_acct: AccountInfo, from_token_acct: AccountInfo, token_mint: AccountInfo, token_program: AccountInfo, associated_token_program: AccountInfo, whithelist: AccountInfo, whitelist_program: AccountInfo, system_program: AccountInfo) -> Option<Error<()>> {
    first(lift(load_error::<DepositBase>(deposit_account, program_key())),
    first(lift(signer_error(deposit_auth)),
    first(token_account_error(to_token_acct),
    first(spl_read_error(from_token_acct, token_mint, token_program, associated_token_program, whithelist, whitelist_program, system_program),
    first(depositor_error(program_id, deposit_account.key@, stored(deposit_account), pda_auth.key@, deposit_auth),
    first(lift(mut_error(to_token_acct)),
    first(token_owner_error(from_token_acct, pda_auth.key@),
    first(associated_address_error(pda_auth.key@, token_mint.key@, from_token_acct.key@, AnchorError::ConstraintAssociated),
    first(lift(mut_error(from_token_acct)),
    seeds_find_error(entry_seeds(pda_auth.key@, deposit_auth.key@), whitelist_program.key@, whithelist.key@))))))))))
}

/// Reads the accounts that token deposits and withdrawals share, from the
/// source token account on.
fn read_spl(from_token_acct: AccountInfo, token_mint: AccountInfo, token_program: &AccountInfo, associated_token_program: &AccountInfo, whithelist: AccountInfo, whitelist_program: &AccountInfo, system_program: &AccountInfo) -> (r: Result<(Account<TokenAccount>, Account<Mint>, Account<WhitelistPDA>), Error<()>>)
    ensures
        match spl_read_error(from_token_acct, token_mint, *token_program, *associated_token_program, whithelist, *whitelist_program, *system_program) {
            Some(e) => r == Err::<(Account<TokenAccount>, Account<Mint>, Account<WhitelistPDA>), Error<()>>(e),
            None => r matches Ok((from, mint, wl)) && from.info == from_token_acct && mint.info == token_mint && wl.info == whithelist
                && from.account@ == token_content(from_token_acct)
                && mint_layout(token_mint.data@) == Ok::<(u64, u8), ProgramError>(mint.account@),
        },
{
    let from = match load_token_account::<()>(from_token_acct) {
        Ok(a) => a,
        Err(e) => return Err(e),
    };
    let mint = match load_mint::<()>(token_mint) {
        Ok(a) => a,
        Err(e) => return Err(e),
    };
    let token = token_program_id();
    if let Err(e) = check_program(token_program, &token) {
        return Err(Error::Anchor(e));
    }
    let associated = associated_token_program_id();
    if let Err(e) = check_program(associated_token_program, &associated) {
        return Err(Error::Anchor(e));
    }
    let wl_owner = whitelist_id();
    let wl = match load::<WhitelistPDA>(whithelist, &wl_owner) {
        Ok(a) => a,
        Err(e) => return Err(Error::Anchor(e)),
    };
    if let Err(e) = check_program(whitelist_program, &wl_owner) {
        return Err(Error::Anchor(e));
    }
    let system = system_program_id();
    if let Err(e) = check_program(system_program, &system) {
        return Err(Error::Anchor(e));
    }
    Ok((from, mint, wl))
}

/// Checks the depositor named by a deposit account and the program
/// authority derived from it.
fn check_depositor(program_id: &Pubkey, deposit_account: &Account<DepositBase>, pda_auth: &AccountInfo, deposit_auth: &AccountInfo) -> (r: Result<(), Error<()>>)
    ensures
        match depositor_error(program_id@, deposit_account.info.key@, deposit_account.account@, pda_auth.key@, *deposit_auth) {
            Some(e) => r == Err::<(), Error<()>>(e),
            None => r is Ok,
        },
{
    if let Err(e) = check_has_one(&deposit_account.account.deposit_auth, deposit_auth) {
        return Err(Error::Anchor(e));
    }
    let seeds = make_auth_seeds(&deposit_account.info.key);
    if let Err(e) = check_seeds_with_bump::<()>(&seeds, deposit_account.account.auth_bump, program_id, &pda_auth.key) {
        return Err(e);
    }
    if let Err(e) = check_mut(deposit_auth) {
        return Err(Error::Anchor(e));
    }
    Ok(())
}

/// Checks a token account for an owner.
fn check_token_owner(token_acct: &Account<TokenAccount>, owner: &Pubkey) -> (r: Result<(), Error<()>>)
    requires
        token_acct.account@ == token_content(token_acct.info),
    ensures
        match token_owner_error(token_acct.info, owner@) {
            Some(e) => r == Err::<(), Error<()>>(e),
            None => r is Ok,
        },
{
    if !token_acct.account.owner.equals(owner) { Err(Error::Anchor(AnchorError::ConstraintTokenOwner)) } else { Ok(()) }
}

/// Checks the token account that receives a deposit, once created where it
/// was missing.
fn check_receiving_account(to_token_acct: AccountInfo, token_mint: &AccountInfo, pda_auth: &AccountInfo, token_program: &AccountInfo, rent_minimum: u64) -> (r: Result<Account<TokenAccount>, Error<()>>)
    ensures
        match receiving_account_error(to_token_acct, *token_mint, *pda_auth, *token_program, rent_minimum) {
            Some(e) => r == Err::<Account<TokenAccount>, Error<()>>(e),
            None => r matches Ok(a) && a.info == to_token_acct && a.account@ == token_content(to_token_acct),
        },
{
    let to = match load_token_account::<()>(to_token_acct) {
        Ok(a) => a,
        Err(e) => return Err(e),
    };
    if !to.account.mint.equals(&token_mint.key) {
        return Err(Error::Anchor(AnchorError::ConstraintTokenMint));
    }
    if let Err(e) = check_token_owner(&to, &pda_auth.key) {
        return Err(e);
    }
    if !to.info.owner.equals(&token_program.key) {
        return Err(Error::Anchor(AnchorError::ConstraintAssociatedTokenTokenProgram));
    }
    if let Err(e) = check_associated_address::<()>(&pda_auth.key, &token_mint.key, &to.info.key, AnchorError::AccountNotAssociatedTokenAccount) {
        return Err(e);
    }
    if let Err(e) = check_mut(&to.info) {
        return Err(Error::Anchor(e));
    }
    if let Err(e) = check_rent_exempt(&to.info, rent_minimum) {
        return Err(Error::Anchor(e));
    }
    Ok(to)
}

/// Whether the framework has the associated token account program create
/// the receiving token account of a deposit first: it does where the account
/// is still the system program's.
pub fn needs_receiving_account(to_token_acct: &AccountInfo) -> (r: bool)
    ensures
        r == (to_token_acct.owner@ == zero_key()),
{
    let system = system_program_id();
    to_token_acct.owner.equals(&system)
}

impl DepositSpl {
    /// Checks the accounts of `deposit_spl` as the framework does; returns
    /// them with the whitelist entry's bump. The receiving token account is
    /// taken as it stands once the framework had the associated token
    /// account program create it where it was missing (owned by the system
    /// program); `rent_minimum` is the least balance the cluster's rent
    /// exempts for a token account.
    pub fn try_accounts(program_id: &Pubkey, deposit_account: AccountInfo, pda_auth: AccountInfo, deposit_auth: AccountInfo, to_token_acct: AccountInfo, from_token_acct: AccountInfo, token_mint: AccountInfo, token_program: AccountInfo, associated_token_program: AccountInfo, whithelist: AccountInfo, whitelist_program: AccountInfo, system_program: AccountInfo, rent_minimum: u64) -> (r: Result<(DepositSpl, u8), Error<()>>)
        ensures
            match deposit_spl_error(program_id@, deposit_account, pda_auth, deposit_auth, to_token_acct, from_token_acct, token_mint, token_program, associated_token_program, whithelist, whitelist_program, system_program, rent_minimum) {
                Some(e) => r == Err::<(DepositSpl, u8), Error<()>>(e),
                None => r matches Ok((ctx, bump)) && {
                    &&& ctx.deposit_account.info == deposit_account && ctx.pda_auth == pda_auth && ctx.deposit_auth == deposit_auth
                    &&& ctx.to_token_acct.info == to_token_acct && ctx.from_token_acct.info == from_token_acct
                    &&& ctx.token_mint.info == token_mint && ctx.token_program == token_program
                    &&& ctx.associated_token_program == associated_token_program && ctx.whithelist.info == whithelist
                    &&& ctx.whitelist_program == whitelist_program && ctx.system_program == system_program
                    &&& ctx.deposit_account.account@ == stored(deposit_account)
                    &&& ctx.to_token_acct.account@ == token_content(to_token_acct)
                    &&& ctx.from_token_acct.account@ == token_content(from_token_acct)
                    &&& mint_layout(token_mint.data@) == Ok::<(u64, u8), ProgramError>(ctx.token_mint.account@)
                    &&& is_canonical_bump(entry_seeds(pda_auth.key@, deposit_auth.key@), whitelist_program.key@, whithelist.key@, bump)
                },
            },
    {
        let owner = id();
        let dep = match load::<DepositBase>(deposit_account, &owner) {
            Ok(a) => a,
            Err(e) => return Err(Error::Anchor(e)),
        };
        if let Err(e) = check_signer(&deposit_auth) {
            return Err(Error::Anchor(e));
        }
        let (from, mint, wl) = match read_spl(from_token_acct, token_mint, &token_program, &associated_token_program, whithelist, &whitelist_program, &system_program) {
            Ok(t) => t,
            Err(e) => return Err(e),
        };
        let to = match check_receiving_account(to_token_acct, &mint.info, &pda_auth, &token_program, rent_minimum) {
            Ok(a) => a,
            Err(e) => return Err(e),
        };
        if let Err(e) = check_depositor(program_id, &dep, &pda_auth, &deposit_auth) {
            return Err(e);
        }
        if let Err(e) = check_mut(&from.info) {
            return Err(Error::Anchor(e));
        }
        let e_seeds = make_entry_seeds(&pda_auth.key, &deposit_auth.key);
        let entry_bump = match check_seeds_find::<()>(&e_seeds, &whitelist_program.key, &wl.info.key) {
            Ok(b) => b,
            Err(e) => return Err(e),
        };
        Ok((DepositSpl { deposit_account: dep, pda_auth, deposit_auth, to_token_acct: to, from_token_acct: from, token_mint: mint,
            token_program, associated_token_program, whithelist: wl, whitelist_program, system_program }, entry_bump))
    }
}

impl WithdrawSpl {
    /// Checks the accounts of `withdraw_spl` as the framework does; returns
    /// them with the whitelist entry's bump.
    pub fn try_accounts(program_id: &Pubkey, deposit_account: AccountInfo, pda_auth: AccountInfo, deposit_auth: AccountInfo, to_token_acct: AccountInfo, from_token_acct: AccountInfo, token_mint: AccountInfo, token_program: AccountInfo, associated_token_program: AccountInfo, whithelist: AccountInfo, whitelist_program: AccountInfo, system_program: AccountInfo) -> (r: Result<(WithdrawSpl, u8), Error<()>>)
        ensures
            match withdraw_spl_error(program_id@, deposit_account, pda_auth, deposit_auth, to_token_acct, from_token_acct, token_mint, token_program, associated_token_program, whithelist, whitelist_program, system_program) {
                Some(e) => r == Err::<(WithdrawSpl, u8), Error<()>>(e),
                None => r matches Ok((ctx, bump)) && {
                    &&& ctx.deposit_account.info == deposit_account && ctx.pda_auth == pda_auth && ctx.deposit_auth == deposit_auth
                    &&& ctx.to_token_acct.info == to_token_acct && ctx.from_token_acct.info == from_token_acct
                    &&& ctx.token_mint.info == token_mint && ctx.token_program == token_program
                    &&& ctx.associated_token_program == associated_token_program && ctx.whithelist.info == whithelist
                    &&& ctx.whitelist_program == whitelist_program && ctx.system_program == system_program
                    &&& ctx.deposit_account.account@ == stored(deposit_account)
                    &&& ctx.to_token_acct.account@ == token_content(to_token_acct)
                    &&& ctx.from_token_acct.account@ == token_content(from_token_acct)
                    &&& mint_layout(token_mint.data@) == Ok::<(u64, u8), ProgramError>(ctx.token_mint.account@)
                    &&& is_canonical_bump(entry_seeds(pda_auth.key@, deposit_auth.key@), whitelist_program.key@, whithelist.key@, bump)
                },
            },
    {
        let owner = id();
        let dep = match load::<DepositBase>(deposit_account, &owner) {
            Ok(a) => a,
            Err(e) => return Err(Error::Anchor(e)),
        };
        if let Err(e) = check_signer(&deposit_auth) {
            return Err(Error::Anchor(e));
        }
        let to = match load_token_account::<()>(to_token_acct) {
            Ok(a) => a,
            Err(e) => return Err(e),
        };
        let (from, mint, wl) = match read_spl(from_token_acct, token_mint, &token_program, &associated_token_program, whithelist, &whitelist_program, &system_program) {
            Ok(t) => t,
            Err(e) => return Err(e),
        };
        if let Err(e) = check_depositor(program_id, &dep, &pda_auth, &deposit_auth) {
            return Err(e);
        }
        if let Err(e) = check_mut(&to.info) {
            return Err(Error::Anchor(e));
        }
        if let Err(e) = check_token_owner(&from, &pda_auth.key) {
            return Err(e);
        }
        if let Err(e) = check_associated_address::<()>(&pda_auth.key, &mint.info.key, &from.info.key, AnchorError::ConstraintAssociated) {
            return Err(e);
        }
        if let Err(e) = check_mut(&from.info) {
            return Err(Error::Anchor(e));
        }
        let e_seeds = make_entry_seeds(&pda_auth.key, &deposit_auth.key);
        let entry_bump = match check_seeds_find::<()>(&e_seeds, &whitelist_program.key, &wl.info.key) {
            Ok(b) => b,
            Err(e) => return Err(e),
        };
        Ok((WithdrawSpl { deposit_account: dep, pda_auth, deposit_auth, to_token_acct: to, from_token_acct: from, token_mint: mint,
            token_program, associated_token_program, whithelist: wl, whitelist_program, system_program }, entry_bump))
    }
}

/// Tokens leave only the authority's own account: when the framework
/// accepts the accounts of `withdraw_spl`, the source token account belongs
/// to the program authority and sits at the authority's associated address
/// for the mint; the authority's seeds with the recorded bump (those
/// `withdraw_spl` signs with) derive the authority; the depositor recorded in
/// the deposit account signed; and the depositor's whitelist entry is an
/// account of the whitelist program at its canonical address.
pub proof fn withdraw_spl_draws_on_the_authority(program_id: Seq<u8>, deposit_account: AccountInfo, pda_auth: AccountInfo, deposit_auth: AccountInfo, to_token_acct: AccountInfo, from_token_acct: AccountInfo, token_mint: AccountInfo, token_program: AccountInfo, associated_token_program: AccountInfo, whithelist: AccountInfo, whitelist_program: AccountInfo, system_program: AccountInfo)
    requires
        withdraw_spl_error(program_id, deposit_account, pda_auth, deposit_auth, to_token_acct, from_token_acct, token_mint, token_program, associated_token_program, whithelist, whitelist_program, system_program) is None,
    ensures
        token_content(from_token_acct).1 == pda_auth.key@,
        is_associated_token_account(pda_auth.key@, token_mint.key@, from_token_acct.key@),
        create_outcome(with_bump(auth_seeds(deposit_account.key@), stored(deposit_account).1), program_id) == Ok::<Seq<u8>, crate::pda::PdaError>(pda_auth.key@),
        stored(deposit_account).0 == deposit_auth.key@,
        deposit_auth.is_signer,
        whithelist.owner@ == whitelist_key(),
        exists|b: u8| is_canonical_bump(entry_seeds(pda_auth.key@, deposit_auth.key@), whitelist_key(), whithelist.key@, b),
{
}

/// A token deposit takes any existing receiving account of the authority,
/// whatever it holds: an initialized token account of the mint, belonging
/// to the program authority, held by the token program, at the authority's
/// associated address, writable and exempt from rent, passes the checks of
/// the receiving account, however many tokens it already holds.
pub proof fn existing_authority_account_receives(to_token_acct: AccountInfo, token_mint: AccountInfo, pda_auth: AccountInfo, token_program: AccountInfo, rent_minimum: u64)
    requires
        token_account_error::<()>(to_token_acct) is None,
        token_content(to_token_acct).0 == token_mint.key@,
        token_content(to_token_acct).1 == pda_auth.key@,
        to_token_acct.owner@ == token_program.key@,
        is_associated_token_account(pda_auth.key@, token_mint.key@, to_token_acct.key@),
        to_token_acct.is_writable,
        rent_minimum <= to_token_acct.lamports,
    ensures
        receiving_account_error(to_token_acct, token_mint, pda_auth, token_program, rent_minimum) is None,
{
    let seeds = associated_token_seeds(pda_auth.key@, token_mint.key@);
    let program = associated_token_program_key();
    let b = choose|b: u8| is_canonical_bump(seeds, program, to_token_acct.key@, b);
    assert(is_canonical_bump(seeds, program, to_token_acct.key@, b));
    assert(!no_viable_bump(seeds, program)) by {
        assert(with_bump(seeds, 0).len() == with_bump(seeds, b).len());
        assert forall|i: int| 0 <= i < with_bump(seeds, 0).len()
            implies #[trigger] with_bump(seeds, 0)[i].len() == with_bump(seeds, b)[i].len() by {}
        assert(crate::pda::derived_address(with_bump(seeds, b), program) is Some);
    }
}

/// A native withdrawal does not ask for the deposit account to be
/// writable: its account checks give the same result whether or not the
/// deposit account is passed writable.
pub proof fn withdrawal_reads_the_deposit_account_only(program_id: Seq<u8>, deposit_account: AccountInfo, pda_auth: AccountInfo, sol_vault: AccountInfo, deposit_auth: AccountInfo, whithelist: AccountInfo, whitelist_program: AccountInfo, system_program: AccountInfo, writable: bool)
    ensures
        withdraw_native_early_error(program_id, AccountInfo { is_writable: writable, ..deposit_account }, pda_auth, sol_vault, deposit_auth, whithelist, whitelist_program, system_program)
            == withdraw_native_early_error(program_id, deposit_account, pda_auth, sol_vault, deposit_auth, whithelist, whitelist_program, system_program),
        withdraw_native_error(program_id, AccountInfo { is_writable: writable, ..deposit_account }, pda_auth, sol_vault, deposit_auth, whithelist, whitelist_program, system_program)
            == withdraw_native_error(program_id, deposit_account, pda_auth, sol_vault, deposit_auth, whithelist, whitelist_program, system_program),
{
}

/// What a token deposit pays into, a withdrawal may draw from: when the
/// framework accepts the accounts of `deposit_spl`, the receiving token
/// account is an initialized account of the token program holding the given
/// mint, belonging to the program authority, at the authority's associated
/// address; so the source checks of `withdraw_spl` accept it for the same
/// authority and mint.
pub proof fn deposited_tokens_are_withdrawable(program_id: Seq<u8>, deposit_account: AccountInfo, pda_auth: AccountInfo, deposit_auth: AccountInfo, to_token_acct: AccountInfo, from_token_acct: AccountInfo, token_mint: AccountInfo, token_program: AccountInfo, associated_token_program: AccountInfo, whithelist: AccountInfo, whitelist_program: AccountInfo, system_program: AccountInfo, rent_minimum: u64)
    requires
        deposit_spl_error(program_id, deposit_account, pda_auth, deposit_auth, to_token_acct, from_token_acct, token_mint, token_program, associated_token_program, whithelist, whitelist_program, system_program, rent_minimum) is None,
    ensures
        token_account_error::<()>(to_token_acct) is None,
        token_content(to_token_acct).0 == token_mint.key@,
        token_owner_error(to_token_acct, pda_auth.key@) is None,
        associated_address_error::<()>(pda_auth.key@, token_mint.key@, to_token_acct.key@, AnchorError::ConstraintAssociated) is None,
{
}

/// A token transfer of `amount` from `from` to `to` authorized by
/// `authority`, through the token program.
pub open spec fn is_token_transfer(ix: Instruction, from: Seq<u8>, to: Seq<u8>, authority: Seq<u8>, amount: u64) -> bool {
    &&& ix@.program_id == token_program_key()
    &&& ix@.accounts == seq![meta(from, false, true), meta(to, false, true), meta(authority, true, false)]
    &&& ix@.data == seq![3u8] + u64_le(amount)
}

/// Pays `amount` tokens from the depositor's token account into the
/// authority's: the call to the token program, which the depositor
/// authorizes.
pub fn deposit_spl(ctx: &DepositSpl, amount: u64) -> (r: Result<Cpi, Error<()>>)
    ensures
        r matches Ok(c) && is_token_transfer(c.instruction, ctx.from_token_acct.info.key@, ctx.to_token_acct.info.key@, ctx.deposit_auth.key@, amount)
            && c.signer_seeds@.len() == 0,
{
    match token_transfer(&ctx.from_token_acct.info.key, &ctx.to_token_acct.info.key, &ctx.deposit_auth.key, amount) {
        Ok(ix) => Ok(Cpi { instruction: ix, signer_seeds: Vec::new() }),
        Err(_) => Err(Error::InstructionBuild),
    }
}

/// Takes `amount` tokens out of the authority's token account: the call to
/// the token program, which the program authorizes by signing for its
/// authority with the authority's seeds and recorded bump.
pub fn withdraw_spl(ctx: &WithdrawSpl, amount: u64) -> (r: Result<Cpi, Error<()>>)
    ensures
        r matches Ok(c) && is_token_transfer(c.instruction, ctx.from_token_acct.info.key@, ctx.to_token_acct.info.key@, ctx.pda_auth.key@, amount)
            && c.signer_seeds.deep_view() == with_bump(auth_seeds(ctx.deposit_account.info.key@), ctx.deposit_account.account.auth_bump),
{
    let mut seeds = make_auth_seeds(&ctx.deposit_account.info.key);
    let b = vec![ctx.deposit_account.account.auth_bump];
    assert(b.deep_view() =~= seq![ctx.deposit_account.account.auth_bump]);
    seeds.push(b);
    assert(seeds.deep_view() =~= with_bump(auth_seeds(ctx.deposit_account.info.key@), ctx.deposit_account.account.auth_bump));
    match token_transfer(&ctx.from_token_acct.info.key, &ctx.to_token_acct.info.key, &ctx.pda_auth.key, amount) {
        Ok(ix) => Ok(Cpi { instruction: ix, signer_seeds: seeds }),
        Err(_) => Err(Error::InstructionBuild),
    }
}

/// The accounts that place an order on the order book.
pub struct NewOrder {
    pub market: AccountInfo,
    pub open_orders: AccountInfo,
    pub request_queue: AccountInfo,
    pub event_queue: AccountInfo,
    pub market_bids: AccountInfo,
    pub market_asks: AccountInfo,
    pub order_payer_token_account: Account<TokenAccount>,
    pub open_orders_authority: AccountInfo,
    pub coin_vault: Account<TokenAccount>,
    pub pc_vault: Account<TokenAccount>,
    pub token_program: AccountInfo,
    pub rent: AccountInfo,
    pub dex_program: AccountInfo,
}

/// The accounts that cancel an order on the order book.
pub struct CancelOrder {
    pub market: AccountInfo,
    pub open_orders: AccountInfo,
    pub request_queue: AccountInfo,
    pub event_queue: AccountInfo,
    pub market_bids: AccountInfo,
    pub market_asks: AccountInfo,
    pub order_payer_token_account: Account<TokenAccount>,
    pub open_orders_authority: AccountInfo,
    pub coin_vault: Account<TokenAccount>,
    pub pc_vault: Account<TokenAccount>,
    pub token_program: AccountInfo,
    pub rent: AccountInfo,
    pub dex_program: AccountInfo,
}

/// The error, if any, with which the framework refuses the accounts of an
/// order placement or cancellation, in the order in which it reads them: the
/// payer and both vaults must be token accounts, then come the token
/// program, the rent sysvar and the order book program.
pub open spec fn order_accounts_error(order_payer_token_account: AccountInfo, coin_vault: AccountInfo, pc_vault: AccountInfo, token_program: AccountInfo, rent: AccountInfo, dex_program: AccountInfo) -> Option<Error<()>> {
    first(token_account_error(order_payer_token_account),
    first(token_account_error(coin_vault),
    first(token_account_error(pc_vault),
    first(lift(program_error(token_program, token_program_key())),
    first(lift(rent_sysvar_error(rent)),
    lift(program_error(dex_program, dex_program_key())))))))
}

/// Reads the accounts of an order placement or cancellation that the
/// framework checks.
fn read_order_accounts(order_payer_token_account: AccountInfo, coin_vault: AccountInfo, pc_vault: AccountInfo, token_program: &AccountInfo, rent: &AccountInfo, dex_program: &AccountInfo) -> (r: Result<(Account<TokenAccount>, Account<TokenAccount>, Account<TokenAccount>), Error<()>>)
    ensures
        match order_accounts_error(order_payer_token_account, coin_vault, pc_vault, *token_program, *rent, *dex_program) {
            Some(e) => r == Err::<(Account<TokenAccount>, Account<TokenAccount>, Account<TokenAccount>), Error<()>>(e),
            None => r matches Ok((payer, coin, pc)) && payer.info == order_payer_token_account && coin.info == coin_vault
                && pc.info == pc_vault && payer.account@ == token_content(order_payer_token_account)
                && coin.account@ == token_content(coin_vault) && pc.account@ == token_content(pc_vault),
        },
{
    let payer = match load_token_account::<()>(order_payer_token_account) {
        Ok(a) => a,
        Err(e) => return Err(e),
    };
    let coin = match load_token_account::<()>(coin_vault) {
        Ok(a) => a,
        Err(e) => return Err(e),
    };
    let pc = match load_token_account::<()>(pc_vault) {
        Ok(a) => a,
        Err(e) => return Err(e),
    };
    let token = token_program_id();
    if let Err(e) = check_program(token_program, &token) {
        return Err(Error::Anchor(e));
    }
    if let Err(e) = check_rent_sysvar(rent) {
        return Err(Error::Anchor(e));
    }
    let dex = dex_program_id();
    if let Err(e) = check_program(dex_program, &dex) {
        return Err(Error::Anchor(e));
    }
    Ok((payer, coin, pc))
}

impl NewOrder {
    /// Checks the accounts of `new_order` as the framework does; the market
    /// accounts and the open orders authority are passed through unchecked.
    pub fn try_accounts(market: AccountInfo, open_orders: AccountInfo, request_queue: AccountInfo, event_queue: AccountInfo, market_bids: AccountInfo, market_asks: AccountInfo, order_payer_token_account: AccountInfo, open_orders_authority: AccountInfo, coin_vault: AccountInfo, pc_vault: AccountInfo, token_program: AccountInfo, rent: AccountInfo, dex_program: AccountInfo) -> (r: Result<NewOrder, Error<()>>)
        ensures
            match order_accounts_error(order_payer_token_account, coin_vault, pc_vault, token_program, rent, dex_program) {
                Some(e) => r == Err::<NewOrder, Error<()>>(e),
                None => r matches Ok(ctx) && {
                    &&& ctx.market == market && ctx.open_orders == open_orders && ctx.request_queue == request_queue
                    &&& ctx.event_queue == event_queue && ctx.market_bids == market_bids && ctx.market_asks == market_asks
                    &&& ctx.order_payer_token_account.info == order_payer_token_account
                    &&& ctx.open_orders_authority == open_orders_authority
                    &&& ctx.coin_vault.info == coin_vault && ctx.pc_vault.info == pc_vault
                    &&& ctx.token_program == token_program && ctx.rent == rent && ctx.dex_program == dex_program
                    &&& ctx.order_payer_token_account.account@ == token_content(order_payer_token_account)
                    &&& ctx.coin_vault.account@ == token_content(coin_vault)
                    &&& ctx.pc_vault.account@ == token_content(pc_vault)
                },
            },
    {
        match read_order_accounts(order_payer_token_account, coin_vault, pc_vault, &token_program, &rent, &dex_program) {
            Ok((payer, coin, pc)) => Ok(NewOrder { market, open_orders, request_queue, event_queue, market_bids, market_asks,
                order_payer_token_account: payer, open_orders_authority, coin_vault: coin, pc_vault: pc, token_program, rent, dex_program }),
            Err(e) => Err(e),
        }
    }
}

impl CancelOrder {
    /// Checks the accounts of `cancel_order` as the framework does; the
    /// market accounts and the open orders authority are passed through
    /// unchecked.
    pub fn try_accounts(market: AccountInfo, open_orders: AccountInfo, request_queue: AccountInfo, event_queue: AccountInfo, market_bids: AccountInfo, market_asks: AccountInfo, order_payer_token_account: AccountInfo, open_orders_authority: AccountInfo, coin_vault: AccountInfo, pc_vault: AccountInfo, token_program: AccountInfo, rent: AccountInfo, dex_program: AccountInfo) -> (r: Result<CancelOrder, Error<()>>)
        ensures
            match order_accounts_error(order_payer_token_account, coin_vault, pc_vault, token_program, rent, dex_program) {
                Some(e) => r == Err::<CancelOrder, Error<()>>(e),
                None => r matches Ok(ctx) && {
                    &&& ctx.market == market && ctx.open_orders == open_orders && ctx.request_queue == request_queue
                    &&& ctx.event_queue == event_queue && ctx.market_bids == market_bids && ctx.market_asks == market_asks
                    &&& ctx.order_payer_token_account.info == order_payer_token_account
                    &&& ctx.open_orders_authority == open_orders_authority
                    &&& ctx.coin_vault.info == coin_vault && ctx.pc_vault.info == pc_vault
                    &&& ctx.token_program == token_program && ctx.rent == rent && ctx.dex_program == dex_program
                    &&& ctx.order_payer_token_account.account@ == token_content(order_payer_token_account)
                    &&& ctx.coin_vault.account@ == token_content(coin_vault)
                    &&& ctx.pc_vault.account@ == token_content(pc_vault)
                },
            },
    {
        match read_order_accounts(order_payer_token_account, coin_vault, pc_vault, &token_program, &rent, &dex_program) {
            Ok((payer, coin, pc)) => Ok(CancelOrder { market, open_orders, request_queue, event_queue, market_bids, market_asks,
                order_payer_token_account: payer, open_orders_authority, coin_vault: coin, pc_vault: pc, token_program, rent, dex_program }),
            Err(e) => Err(e),
        }
    }
}

/// The accounts the order book's new-order call takes.
pub struct NewOrderV3 {
    pub market: AccountInfo,
    pub open_orders: AccountInfo,
    pub request_queue: AccountInfo,
    pub event_queue: AccountInfo,
    pub market_bids: AccountInfo,
    pub market_asks: AccountInfo,
    pub order_payer_token_account: AccountInfo,
    pub open_orders_authority: AccountInfo,
    pub coin_vault: AccountInfo,
    pub pc_vault: AccountInfo,
    pub token_program: AccountInfo,
    pub rent: AccountInfo,
}

impl NewOrderV3 {
    /// The accounts of a new order, taken from the instruction's accounts
    /// field by field.
    pub fn from(new_order: &NewOrder) -> (r: NewOrderV3)
        ensures
            same_info(r.market, new_order.market),
            same_info(r.open_orders, new_order.open_orders),
            same_info(r.request_queue, new_order.request_queue),
            same_info(r.event_queue, new_order.event_queue),
            same_info(r.market_bids, new_order.market_bids),
            same_info(r.market_asks, new_order.market_asks),
            same_info(r.order_payer_token_account, new_order.order_payer_token_account.info),
            same_info(r.open_orders_authority, new_order.open_orders_authority),
            same_info(r.coin_vault, new_order.coin_vault.info),
            same_info(r.pc_vault, new_order.pc_vault.info),
            same_info(r.token_program, new_order.token_program),
            same_info(r.rent, new_order.rent),
    {
        NewOrderV3 {
            market: new_order.market.duplicate(),
            open_orders: new_order.open_orders.duplicate(),
            request_queue: new_order.request_queue.duplicate(),
            event_queue: new_order.event_queue.duplicate(),
            market_bids: new_order.market_bids.duplicate(),
            market_asks: new_order.market_asks.duplicate(),
            order_payer_token_account: new_order.order_payer_token_account.info.duplicate(),
            open_orders_authority: new_order.open_orders_authority.duplicate(),
            coin_vault: new_order.coin_vault.info.duplicate(),
            pc_vault: new_order.pc_vault.info.duplicate(),
            token_program: new_order.token_program.duplicate(),
            rent: new_order.rent.duplicate(),
        }
    }
}

/// The accounts the order book's cancel call takes.
pub struct CancelOrderV2 {
    pub market: AccountInfo,
    pub market_bids: AccountInfo,
    pub market_asks: AccountInfo,
    pub open_orders: AccountInfo,
    pub open_orders_authority: AccountInfo,
    pub event_queue: AccountInfo,
}

impl CancelOrderV2 {
    /// The accounts of a cancellation, taken from the instruction's accounts
    /// field by field.
    pub fn from(new_order: &CancelOrder) -> (r: CancelOrderV2)
        ensures
            same_info(r.market, new_order.market),
            same_info(r.open_orders, new_order.open_orders),
            same_info(r.event_queue, new_order.event_queue),
            same_info(r.market_bids, new_order.market_bids),
            same_info(r.market_asks, new_order.market_asks),
            same_info(r.open_orders_authority, new_order.open_orders_authority),
    {
        CancelOrderV2 {
            market: new_order.market.duplicate(),
            open_orders: new_order.open_orders.duplicate(),
            event_queue: new_order.event_queue.duplicate(),
            market_bids: new_order.market_bids.duplicate(),
            market_asks: new_order.market_asks.duplicate(),
            open_orders_authority: new_order.open_orders_authority.duplicate(),
        }
    }
}

/// The most coins and the most quote currency, fees included, that an order
/// of the program may trade.
pub const MAX_COIN_QTY: u64 = 10000;
pub const MAX_NATIVE_PC_QTY_INCLUDING_FEES: u64 = 10000;

/// The data of the order the program places: a limit sell at `limit_price`
/// of at most `MAX_COIN_QTY` coins for at most
/// `MAX_NATIVE_PC_QTY_INCLUDING_FEES`, decrementing its own takes, with
/// client id 0 and matching limit 0.
pub open spec fn new_order_data(limit_price: u64) -> Seq<u8> {
    seq![0u8] + u32_le(10) + u32_le(side_index(DexSide::Ask)) + u64_le(limit_price)
        + u64_le(MAX_COIN_QTY) + u64_le(MAX_NATIVE_PC_QTY_INCLUDING_FEES)
        + u32_le(self_trade_index(SelfTradeBehavior::DecrementTake)) + u32_le(order_type_index(DexOrderType::Limit))
        + u64_le(0) + u16_le(0)
}

/// The order the program places is a sell at exactly the price asked: its
/// data is, for every price, the version 0, the new-order variant 10, the
/// ask side 1, the price itself, at most 10000 coins for at most 10000 of the
/// quote currency, decrementing its own takes (0), as a limit order (0), with
/// client id 0 and matching limit 0, all little-endian.
pub proof fn order_carries_the_asked_price(limit_price: u64)
    ensures
        new_order_data(limit_price) == seq![0u8] + u32_le(10) + u32_le(1) + u64_le(limit_price) + u64_le(10000)
            + u64_le(10000) + u32_le(0) + u32_le(0) + u64_le(0) + u16_le(0),
        new_order_data(limit_price).subrange(9, 17) == u64_le(limit_price),
{
    let d = new_order_data(limit_price);
    assert(d.subrange(9, 17) =~= u64_le(limit_price));
}

/// Places a limit sell order on the order book at `limit_price`: the call to
/// the order book program.
pub fn new_order(ctx: &NewOrder, limit_price: u64) -> (r: Result<Cpi, Error<()>>)
    requires
        limit_price != 0,
    ensures
        r matches Ok(c) && c.signer_seeds@.len() == 0
            && c.instruction@.program_id == dex_program_key()
            && c.instruction@.accounts == seq![
                meta(ctx.market.key@, false, true), meta(ctx.open_orders.key@, false, true),
                meta(ctx.request_queue.key@, false, true), meta(ctx.event_queue.key@, false, true),
                meta(ctx.market_bids.key@, false, true), meta(ctx.market_asks.key@, false, true),
                meta(ctx.order_payer_token_account.info.key@, false, true), meta(ctx.open_orders_authority.key@, true, false),
                meta(ctx.coin_vault.info.key@, false, true), meta(ctx.pc_vault.info.key@, false, true),
                meta(ctx.token_program.key@, false, false), meta(ctx.rent.key@, false, false)]
            && c.instruction@.data == new_order_data(limit_price)
            && c.instruction@.data == seq![0u8] + u32_le(10) + u32_le(1) + u64_le(limit_price) + u64_le(10000)
                + u64_le(10000) + u32_le(0) + u32_le(0) + u64_le(0) + u16_le(0),
{
    let order = NewOrderV3::from(ctx);
    let keys = [order.market.key.bytes, order.open_orders.key.bytes, order.request_queue.key.bytes,
        order.event_queue.key.bytes, order.market_bids.key.bytes, order.market_asks.key.bytes,
        order.order_payer_token_account.key.bytes, order.open_orders_authority.key.bytes,
        order.coin_vault.key.bytes, order.pc_vault.key.bytes, order.token_program.key.bytes, order.rent.key.bytes];
    let side = side_code(DexSide::Ask);
    let order_type = order_type_code(DexOrderType::Limit);
    let self_trade = self_trade_code(SelfTradeBehavior::DecrementTake);
    let client_order_id: u64 = 0;
    let limit: u16 = 0;
    match dex_new_order(keys, side, limit_price, MAX_COIN_QTY, order_type, client_order_id, self_trade, limit, MAX_NATIVE_PC_QTY_INCLUDING_FEES) {
        Some((accounts, data)) => {
            let ix = Instruction { program_id: crate::model::dex_program_id(), accounts, data };
            assert(ix@.accounts =~= seq![
                meta(ctx.market.key@, false, true), meta(ctx.open_orders.key@, false, true),
                meta(ctx.request_queue.key@, false, true), meta(ctx.event_queue.key@, false, true),
                meta(ctx.market_bids.key@, false, true), meta(ctx.market_asks.key@, false, true),
                meta(ctx.order_payer_token_account.info.key@, false, true), meta(ctx.open_orders_authority.key@, true, false),
                meta(ctx.coin_vault.info.key@, false, true), meta(ctx.pc_vault.info.key@, false, true),
                meta(ctx.token_program.key@, false, false), meta(ctx.rent.key@, false, false)]);
            Ok(Cpi { instruction: ix, signer_seeds: Vec::new() })
        },
        None => Err(Error::InstructionBuild),
    }
}

/// Cancels the sell order `order_id` on the order book: the call to the
/// order book program.
pub fn cancel_order(ctx: &CancelOrder, order_id: u128) -> (r: Result<Cpi, Error<()>>)
    ensures
        r matches Ok(c) && c.signer_seeds@.len() == 0
            && c.instruction@.program_id == dex_program_key()
            && c.instruction@.accounts == seq![
                meta(ctx.market.key@, false, true), meta(ctx.market_bids.key@, false, true),
                meta(ctx.market_asks.key@, false, true), meta(ctx.open_orders.key@, false, true),
                meta(ctx.open_orders_authority.key@, true, false), meta(ctx.event_queue.key@, false, true)]
            && c.instruction@.data == seq![0u8] + u32_le(11) + u32_le(side_index(DexSide::Ask)) + crate::model::u128_le(order_id),
{
    let order = CancelOrderV2::from(ctx);
    let keys = [order.market.key, order.market_bids.key, order.market_asks.key, order.open_orders.key,
        order.open_orders_authority.key, order.event_queue.key];
    let side = side_code(DexSide::Ask);
    match dex_cancel_order(keys, side, order_id) {
        Some(ix) => Ok(Cpi { instruction: ix, signer_seeds: Vec::new() }),
        None => Err(Error::InstructionBuild),
    }
}

/// Accounts of an instruction the program declares and never uses.
pub struct RemoveLimit {}

/// Accounts of an instruction the program declares and never uses.
pub struct AcceptLimit {}

/// The accounts that mint a token with metadata.
pub struct MintftAndCreateMetadata {
    pub deposit_account: Account<DepositBase>,
    pub pda_auth: AccountInfo,
    pub metadata: AccountInfo,
    pub mint: Account<Mint>,
    pub edition: AccountInfo,
    pub deposit_auth: AccountInfo,
    pub token_program: AccountInfo,
    pub system_program: AccountInfo,
    pub rent: AccountInfo,
}

/// Token metadata: name, symbol, uri and the creators' fee in basis points
/// (no creators, collection or uses).
pub struct DataV2 {
    pub name: String,
    pub symbol: String,
    pub uri: String,
    pub seller_fee_basis_points: u16,
}

/// The metadata the program gives every token it mints: `Placeholder`,
/// `PLC`, `localhost`, a fee of 100 basis points.
pub open spec fn placeholder_metadata_data() -> Seq<u8> {
    metadata_v3_data("Placeholder"@, "PLC"@, "localhost"@, 100, true)
}

/// The metadata the program mints with is the placeholder: named
/// `Placeholder`, with symbol `PLC` and uri `localhost`, a creators' fee of
/// 100 basis points, mutable.
pub proof fn minted_metadata_is_the_placeholder()
    ensures
        placeholder_metadata_data() == metadata_v3_data("Placeholder"@, "PLC"@, "localhost"@, 100u16, true),
{
}

/// Mints a token with metadata: first the call to the token program that
/// initializes `mint` with no decimals and `mint_auth` as mint and freeze
/// authority, then the call to the metadata program that creates the
/// placeholder metadata, with the mint itself as mint authority, payer and
/// update authority (signing), mutable. The metadata argument is not used.
pub fn mint_nft_and_create_metadata(ctx: &MintftAndCreateMetadata, mint: &AccountInfo, mint_auth: &AccountInfo, _data: DataV2) -> (r: Result<(Cpi, Cpi), Error<()>>)
    ensures
        r matches Ok((first_call, second_call)) && {
            &&& first_call.signer_seeds@.len() == 0
            &&& first_call.instruction@.program_id == token_program_key()
            &&& first_call.instruction@.accounts == seq![meta(mint.key@, false, true)]
            &&& first_call.instruction@.data == seq![20u8, 0u8] + mint_auth.key@ + pubkey_option_packed(Some(mint_auth.key@))
            &&& second_call.signer_seeds@.len() == 0
            &&& second_call.instruction@.program_id == metadata_program_key()
            &&& second_call.instruction@.accounts == seq![
                meta(ctx.metadata.key@, false, true), meta(mint.key@, false, false), meta(mint.key@, true, false),
                meta(mint.key@, true, true), meta(mint.key@, true, false), meta(zero_key(), false, false)]
            &&& second_call.instruction@.data == placeholder_metadata_data()
            &&& second_call.instruction@.data == metadata_v3_data("Placeholder"@, "PLC"@, "localhost"@, 100u16, true)
        },
{
    let init = match initialize_mint2(&mint.key, &mint_auth.key, Some(mint_auth.key), 0) {
        Ok(ix) => ix,
        Err(_) => return Err(Error::InstructionBuild),
    };
    let keys = [ctx.metadata.key, mint.key, mint.key, mint.key, mint.key];
    let name = "Placeholder".to_string();
    let symbol = "PLC".to_string();
    let uri = "localhost".to_string();
    let placeholder = DataV2 { name, symbol, uri, seller_fee_basis_points: 100 };
    let create = create_metadata_accounts_v3(&keys, placeholder.name, placeholder.symbol, placeholder.uri,
        placeholder.seller_fee_basis_points, true, true);
    Ok((Cpi { instruction: init, signer_seeds: Vec::new() }, Cpi { instruction: create, signer_seeds: Vec::new() }))
}

} // verus!
