//! Accounts of the token program as the framework reads them: token accounts
//! and mints, unpacked by the token program's library, and the address of
//! the associated token account of a wallet for a mint.
use vstd::prelude::*;
use crate::model::{Pubkey, AccountInfo, Account, zero_key, token_program_key, token_program_id,
    associated_token_program_key, associated_token_program_id};
use crate::anchor::{AnchorError, Error, ProgramError, check_seeds_find};
use crate::pda::{is_canonical_bump, no_viable_bump};
use anchor_spl::token::spl_token::state::{Account as SplAccount, Mint as SplMint};
use anchor_lang::solana_program::program_pack::Pack;
use anchor_lang::solana_program::program_error::ProgramError as RuntimeError;

verus! {

/// What the programs read of a token account: its mint, its owner and the
/// amount it holds.
#[derive(Clone, Copy, Debug)]
pub struct TokenAccount {
    pub mint: Pubkey,
    pub owner: Pubkey,
    pub amount: u64,
}

impl View for TokenAccount {
    type V = (Seq<u8>, Seq<u8>, u64);

    open spec fn view(&self) -> (Seq<u8>, Seq<u8>, u64) {
        (self.mint@, self.owner@, self.amount)
    }
}

/// What the programs read of a mint: its supply and its decimals.
#[derive(Clone, Copy, Debug)]
pub struct Mint {
    pub supply: u64,
    pub decimals: u8,
}

impl View for Mint {
    type V = (u64, u8);

    open spec fn view(&self) -> (u64, u8) {
        (self.supply, self.decimals)
    }
}

/// The four bytes at `at` are the tag of an optional value: 0 or 1 as a
/// little-endian `u32`.
pub open spec fn option_tag_ok(data: Seq<u8>, at: int) -> bool {
    &&& data[at] == 0 || data[at] == 1
    &&& data[at + 1] == 0 && data[at + 2] == 0 && data[at + 3] == 0
}

/// The little-endian `u64` at `at`.
pub open spec fn le_u64(data: Seq<u8>, at: int) -> u64 {
    (data[at] as int + data[at + 1] as int * 0x100 + data[at + 2] as int * 0x1_0000
        + data[at + 3] as int * 0x100_0000 + data[at + 4] as int * 0x1_0000_0000
        + data[at + 5] as int * 0x100_0000_0000 + data[at + 6] as int * 0x1_0000_0000_0000
        + data[at + 7] as int * 0x100_0000_0000_0000) as u64
}

/// A token account as its 165 bytes hold it: mint (32), owner (32), amount
/// (8), optional delegate (4 + 32), state (1: uninitialized, initialized or
/// frozen), optional native amount (4 + 8), delegated amount (8), optional
/// close authority (4 + 32).
pub open spec fn token_account_layout(data: Seq<u8>) -> Result<(Seq<u8>, Seq<u8>, u64), ProgramError> {
    if data.len() != 165 || !option_tag_ok(data, 72) || data[108] > 2 || !option_tag_ok(data, 109)
        || !option_tag_ok(data, 129) {
        Err(ProgramError::InvalidAccountData)
    } else if data[108] == 0 {
        Err(ProgramError::UninitializedAccount)
    } else {
        Ok((data.subrange(0, 32), data.subrange(32, 64), le_u64(data, 64)))
    }
}

/// A mint as its 82 bytes hold it: optional mint authority (4 + 32), supply
/// (8), decimals (1), whether it is initialized (1: 0 or 1), optional freeze
/// authority (4 + 32).
pub open spec fn mint_layout(data: Seq<u8>) -> Result<(u64, u8), ProgramError> {
    if data.len() != 82 || !option_tag_ok(data, 0) || data[45] > 1 || !option_tag_ok(data, 46) {
        Err(ProgramError::InvalidAccountData)
    } else if data[45] == 0 {
        Err(ProgramError::UninitializedAccount)
    } else {
        Ok((le_u64(data, 36), data[44]))
    }
}

/// Calls `spl_token::state::Account::unpack`. Claimed: it reads the layout
/// of `token_account_layout`, failing with `InvalidAccountData` on a wrong
/// length, a bad option tag or state, and with `UninitializedAccount` on an
/// uninitialized account.
#[verifier::external_body]
fn unpack_token_account(data: &[u8]) -> (r: Result<TokenAccount, ProgramError>)
    ensures
        match token_account_layout(data@) {
            Ok(v) => r matches Ok(a) && a@ == v,
            Err(e) => r == Err::<TokenAccount, ProgramError>(e),
        },
{
    match SplAccount::unpack(data) {
        Ok(a) => Ok(TokenAccount { mint: Pubkey { bytes: a.mint.to_bytes() }, owner: Pubkey { bytes: a.owner.to_bytes() }, amount: a.amount }),
        Err(RuntimeError::UninitializedAccount) => Err(ProgramError::UninitializedAccount),
        Err(_) => Err(ProgramError::InvalidAccountData),
    }
}

/// Calls `spl_token::state::Mint::unpack`. Claimed: it reads the layout of
/// `mint_layout`, failing with `InvalidAccountData` on a wrong length, a bad
/// option tag or initialization flag, and with `UninitializedAccount` on an
/// uninitialized mint.
#[verifier::external_body]
fn unpack_mint(data: &[u8]) -> (r: Result<Mint, ProgramError>)
    ensures
        match mint_layout(data@) {
            Ok(v) => r matches Ok(m) && m@ == v,
            Err(e) => r == Err::<Mint, ProgramError>(e),
        },
{
    match SplMint::unpack(data) {
        Ok(m) => Ok(Mint { supply: m.supply, decimals: m.decimals }),
        Err(RuntimeError::UninitializedAccount) => Err(ProgramError::UninitializedAccount),
        Err(_) => Err(ProgramError::InvalidAccountData),
    }
}

/// The error with which the framework refuses `info` as a token account,
/// if it does.
pub open spec fn token_account_error<E>(info: AccountInfo) -> Option<Error<E>> {
    if info.owner@ == zero_key() && info.lamports == 0 {
        Some(Error::Anchor(AnchorError::AccountNotInitialized))
    } else if info.owner@ != token_program_key() {
        Some(Error::Anchor(AnchorError::AccountOwnedByWrongProgram))
    } else {
        match token_account_layout(info.data@) {
            Err(e) => Some(Error::Runtime(e)),
            Ok(_) => None,
        }
    }
}

/// The error with which the framework refuses `info` as a mint, if it does.
pub open spec fn mint_error<E>(info: AccountInfo) -> Option<Error<E>> {
    if info.owner@ == zero_key() && info.lamports == 0 {
        Some(Error::Anchor(AnchorError::AccountNotInitialized))
    } else if info.owner@ != token_program_key() {
        Some(Error::Anchor(AnchorError::AccountOwnedByWrongProgram))
    } else {
        match mint_layout(info.data@) {
            Err(e) => Some(Error::Runtime(e)),
            Ok(_) => None,
        }
    }
}

/// The content of a token account the framework accepted.
pub open spec fn token_content(info: AccountInfo) -> (Seq<u8>, Seq<u8>, u64) {
    match token_account_layout(info.data@) {
        Ok(v) => v,
        Err(_) => (Seq::empty(), Seq::empty(), 0),
    }
}

/// Reads `info` as a token account, as the framework does for an
/// `Account<TokenAccount>` field.
pub fn load_token_account<E>(info: AccountInfo) -> (r: Result<Account<TokenAccount>, Error<E>>)
    ensures
        match token_account_error::<E>(info) {
            Some(e) => r == Err::<Account<TokenAccount>, Error<E>>(e),
            None => r matches Ok(a) && a.info == info && a.account@ == token_content(info),
        },
{
    let system = Pubkey::zeroed();
    if info.owner.equals(&system) && info.lamports == 0 {
        return Err(Error::Anchor(AnchorError::AccountNotInitialized));
    }
    let token = token_program_id();
    if !info.owner.equals(&token) {
        return Err(Error::Anchor(AnchorError::AccountOwnedByWrongProgram));
    }
    match unpack_token_account(info.data.as_slice()) {
        Ok(t) => Ok(Account { info, account: t }),
        Err(e) => Err(Error::Runtime(e)),
    }
}

/// Reads `info` as a mint, as the framework does for an `Account<Mint>`
/// field.
pub fn load_mint<E>(info: AccountInfo) -> (r: Result<Account<Mint>, Error<E>>)
    ensures
        match mint_error::<E>(info) {
            Some(e) => r == Err::<Account<Mint>, Error<E>>(e),
            None => r matches Ok(a) && a.info == info && mint_layout(info.data@) == Ok::<(u64, u8), ProgramError>(a.account@),
        },
{
    let system = Pubkey::zeroed();
    if info.owner.equals(&system) && info.lamports == 0 {
        return Err(Error::Anchor(AnchorError::AccountNotInitialized));
    }
    let token = token_program_id();
    if !info.owner.equals(&token) {
        return Err(Error::Anchor(AnchorError::AccountOwnedByWrongProgram));
    }
    match unpack_mint(info.data.as_slice()) {
        Ok(m) => Ok(Account { info, account: m }),
        Err(e) => Err(Error::Runtime(e)),
    }
}

/// The seeds of the associated token account of `wallet` for `mint`, under
/// the associated token account program.
pub open spec fn associated_token_seeds(wallet: Seq<u8>, mint: Seq<u8>) -> Seq<Seq<u8>> {
    seq![wallet, token_program_key(), mint]
}

/// `key` is the associated token account of `wallet` for `mint`.
pub open spec fn is_associated_token_account(wallet: Seq<u8>, mint: Seq<u8>, key: Seq<u8>) -> bool {
    exists|b: u8| is_canonical_bump(associated_token_seeds(wallet, mint), associated_token_program_key(), key, b)
}

/// The outcome of comparing `key` with the associated token account of
/// `wallet` for `mint`: the search for its bump may find none, where the
/// library gives up; a different address is refused with `e`.
pub open spec fn associated_address_error<E>(wallet: Seq<u8>, mint: Seq<u8>, key: Seq<u8>, e: AnchorError) -> Option<Error<E>> {
    if no_viable_bump(associated_token_seeds(wallet, mint), associated_token_program_key()) {
        Some(Error::BumpNotFound)
    } else if !is_associated_token_account(wallet, mint, key) {
        Some(Error::Anchor(e))
    } else {
        None
    }
}

/// Checks that `key` is the associated token account of `wallet` for
/// `mint`, the address the associated token account library derives.
pub fn check_associated_address<E>(wallet: &Pubkey, mint: &Pubkey, key: &Pubkey, e: AnchorError) -> (r: Result<(), Error<E>>)
    ensures
        match associated_address_error::<E>(wallet@, mint@, key@, e) {
            Some(err) => r == Err::<(), Error<E>>(err),
            None => r is Ok,
        },
{
    let token = token_program_id();
    let seeds = vec![wallet.to_vec(), token.to_vec(), mint.to_vec()];
    proof {
        assert(seeds@[0].deep_view() =~= wallet@);
        assert(seeds@[1].deep_view() =~= token_program_key());
        assert(seeds@[2].deep_view() =~= mint@);
        assert(seeds.deep_view() =~= associated_token_seeds(wallet@, mint@));
    }
    let program = associated_token_program_id();
    match check_seeds_find::<E>(&seeds, &program, key) {
        Ok(_) => Ok(()),
        Err(Error::Anchor(_)) => Err(Error::Anchor(e)),
        Err(other) => Err(other),
    }
}

} // verus!
