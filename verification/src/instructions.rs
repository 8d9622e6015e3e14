//! The instructions the programs send to other programs, built by the
//! libraries of those programs.
use vstd::prelude::*;
use crate::model::{Pubkey, AccountMeta, Instruction, zero_key, meta, u16_le, u32_le, u64_le, u128_le, token_program_key, dex_program_key, metadata_program_key};
use anchor_lang::solana_program as sp;
use anchor_lang::solana_program::pubkey::Pubkey as Pk;
use anchor_spl::dex::serum_dex::instruction::{new_order, cancel_order, };
use anchor_spl::dex::serum_dex::matching::Side;
use anchor_spl::dex::ID as DEX_ID;
use std::num::NonZeroU64;

verus! {

/// Side of an order on the order book.
#[derive(Clone, Copy, Debug, PartialEq, Eq, Structural)]
pub enum DexSide {
    Bid,
    Ask,
}

/// Kind of an order on the order book.
#[derive(Clone, Copy, Debug, PartialEq, Eq, Structural)]
pub enum DexOrderType {
    Limit,
    ImmediateOrCancel,
    PostOnly,
}

/// What the order book does when an order would match one of the same owner.
#[derive(Clone, Copy, Debug, PartialEq, Eq, Structural)]
pub enum SelfTradeBehavior {
    DecrementTake,
    CancelProvide,
    AbortTransaction,
}

/// Why an instruction of the token program could not be built: its library
/// refused the program id.
#[derive(Clone, Copy, Debug, PartialEq, Eq, Structural)]
pub enum BuildError {
    TokenInstruction,
}

pub open spec fn side_index(s: DexSide) -> u32 {
    match s {
        DexSide::Bid => 0,
        DexSide::Ask => 1,
    }
}

pub open spec fn order_type_index(t: DexOrderType) -> u32 {
    match t {
        DexOrderType::Limit => 0,
        DexOrderType::ImmediateOrCancel => 1,
        DexOrderType::PostOnly => 2,
    }
}

pub open spec fn self_trade_index(b: SelfTradeBehavior) -> u32 {
    match b {
        SelfTradeBehavior::DecrementTake => 0,
        SelfTradeBehavior::CancelProvide => 1,
        SelfTradeBehavior::AbortTransaction => 2,
    }
}

/// Calls `system_instruction::transfer` of the runtime library. Claimed: an
/// instruction to the system program naming `from` (signer, writable) and
/// `to` (writable), whose data is the bincode form of `Transfer { lamports }`:
/// the variant index 2 as a `u32`, then the amount, both little-endian.
#[verifier::external_body]
pub(crate) fn system_transfer(from: &Pubkey, to: &Pubkey, lamports: u64) -> (r: Instruction)
    ensures
        r@.program_id == zero_key(),
        r@.accounts == seq![meta(from@, true, true), meta(to@, false, true)],
        r@.data == u32_le(2) + u64_le(lamports),
{
    let k = |p: &Pubkey| Pk::new_from_array(p.bytes);
    let ix = sp::system_instruction::transfer(&k(from), &k(to), lamports);
    let accounts = ix.accounts.iter().map(|m| AccountMeta { pubkey: Pubkey { bytes: m.pubkey.to_bytes() }, is_signer: m.is_signer, is_writable: m.is_writable }).collect();
    Instruction { program_id: Pubkey { bytes: ix.program_id.to_bytes() }, accounts, data: ix.data }
}

/// Calls `spl_token::instruction::transfer` with the token program's id and no
/// multisignature signers. Claimed: it succeeds, naming `source` and
/// `destination` (writable) and `authority` (signer), with data the tag 3
/// followed by the little-endian amount.
#[verifier::external_body]
pub(crate) fn token_transfer(source: &Pubkey, destination: &Pubkey, authority: &Pubkey, amount: u64) -> (r: Result<Instruction, BuildError>)
    ensures
        r is Ok,
        r->Ok_0@.program_id == token_program_key(),
        r->Ok_0@.accounts == seq![meta(source@, false, true), meta(destination@, false, true), meta(authority@, true, false)],
        r->Ok_0@.data == seq![3u8] + u64_le(amount),
{
    let k = |p: &Pubkey| Pk::new_from_array(p.bytes);
    match anchor_spl::token::spl_token::instruction::transfer(&anchor_spl::token::spl_token::ID, &k(source), &k(destination), &k(authority), &[], amount) {
        Ok(ix) => {
            let accounts = ix.accounts.iter().map(|m| AccountMeta { pubkey: Pubkey { bytes: m.pubkey.to_bytes() }, is_signer: m.is_signer, is_writable: m.is_writable }).collect();
            Ok(Instruction { program_id: Pubkey { bytes: ix.program_id.to_bytes() }, accounts, data: ix.data })
        },
        Err(_) => Err(BuildError::TokenInstruction),
    }
}

/// An optional address as the token program packs it: 1 and the address, or 0.
pub open spec fn pubkey_option_packed(k: Option<Seq<u8>>) -> Seq<u8> {
    match k {
        Some(k) => seq![1u8] + k,
        None => seq![0u8],
    }
}

/// Calls `spl_token::instruction::initialize_mint2` with the token program's
/// id. Claimed: it succeeds, naming the mint (writable), with data the tag 20,
/// the decimals, the mint authority and the packed freeze authority.
#[verifier::external_body]
pub(crate) fn initialize_mint2(mint: &Pubkey, mint_authority: &Pubkey, freeze_authority: Option<Pubkey>, decimals: u8) -> (r: Result<Instruction, BuildError>)
    ensures
        r is Ok,
        r->Ok_0@.program_id == token_program_key(),
        r->Ok_0@.accounts == seq![meta(mint@, false, true)],
        r->Ok_0@.data == seq![20u8, decimals] + mint_authority@
                + pubkey_option_packed(match freeze_authority { Some(f) => Some(f@), None => None }),
{
    let k = |p: &Pubkey| Pk::new_from_array(p.bytes);
    let freeze = freeze_authority.map(|f| k(&f));
    match anchor_spl::token::spl_token::instruction::initialize_mint2(&anchor_spl::token::spl_token::ID, &k(mint), &k(mint_authority), freeze.as_ref(), decimals) {
        Ok(ix) => {
            let accounts = ix.accounts.iter().map(|m| AccountMeta { pubkey: Pubkey { bytes: m.pubkey.to_bytes() }, is_signer: m.is_signer, is_writable: m.is_writable }).collect();
            Ok(Instruction { program_id: Pubkey { bytes: ix.program_id.to_bytes() }, accounts, data: ix.data })
        },
        Err(_) => Err(BuildError::TokenInstruction),
    }
}

/// The number by which the order book encodes a side.
pub fn side_code(s: DexSide) -> (r: u8)
    ensures
        r as u32 == side_index(s),
        r < 2,
{
    match s {
        DexSide::Bid => 0,
        DexSide::Ask => 1,
    }
}

/// The number by which the order book encodes an order kind.
pub fn order_type_code(t: DexOrderType) -> (r: u8)
    ensures
        r as u32 == order_type_index(t),
        r < 3,
{
    match t {
        DexOrderType::Limit => 0,
        DexOrderType::ImmediateOrCancel => 1,
        DexOrderType::PostOnly => 2,
    }
}

/// The number by which the order book encodes a self-trade behavior.
pub fn self_trade_code(b: SelfTradeBehavior) -> (r: u8)
    ensures
        r as u32 == self_trade_index(b),
        r < 3,
{
    match b {
        SelfTradeBehavior::DecrementTake => 0,
        SelfTradeBehavior::CancelProvide => 1,
        SelfTradeBehavior::AbortTransaction => 2,
    }
}

/// Calls `serum_dex::instruction::new_order` with the order book program's
/// id and no referral account; `side`, `order_type` and `self_trade` are the
/// numbers of the order book's enums. `keys` are, in order: market, open
/// orders, request queue, event queue, bids, asks, order payer, open orders
/// owner, coin vault, pc vault, token program, rent sysvar. Claimed: it
/// succeeds, naming the keys (all writable but the owner, which signs, and
/// the token program and sysvar, read only), with data the bincode form of
/// `(0u8, NewOrderV3 { .. })`: the version, the variant index 10, then the
/// fields in their declared order.
#[verifier::external_body]
pub(crate) fn dex_new_order(keys: [[u8; 32]; 12], side: u8, limit_price: u64, max_coin_qty: u64, order_type: u8, client_order_id: u64, self_trade: u8, limit: u16, max_pc_qty: u64) -> (r: Option<(Vec<AccountMeta>, Vec<u8>)>)
    requires
        side < 2,
        order_type < 3,
        self_trade < 3,
        limit_price != 0,
        max_coin_qty != 0,
        max_pc_qty != 0,
    ensures
        r is Some,
        r->Some_0.0@.map_values(|m: AccountMeta| m@) == seq![
            meta(keys@[0]@, false, true), meta(keys@[1]@, false, true), meta(keys@[2]@, false, true),
            meta(keys@[3]@, false, true), meta(keys@[4]@, false, true), meta(keys@[5]@, false, true),
            meta(keys@[6]@, false, true), meta(keys@[7]@, true, false), meta(keys@[8]@, false, true),
            meta(keys@[9]@, false, true), meta(keys@[10]@, false, false), meta(keys@[11]@, false, false)],
        r->Some_0.1@ == seq![0u8] + u32_le(10) + u32_le(side as u32) + u64_le(limit_price)
            + u64_le(max_coin_qty) + u64_le(max_pc_qty) + u32_le(self_trade as u32) + u32_le(order_type as u32)
            + u64_le(client_order_id) + u16_le(limit),
{
    let [a, b, c, d, e, f, g, h, i, j, k, l] = &keys.map(Pk::new_from_array);
    new_order(a, b, c, d, e, f, g, h, i, j, k, l, None, &DEX_ID, side.try_into().ok()?, NonZeroU64::new(limit_price)?, NonZeroU64::new(max_coin_qty)?, order_type.try_into().ok()?, client_order_id, self_trade.try_into().ok()?, limit, NonZeroU64::new(max_pc_qty)?).ok()
        .map(|ix| (ix.accounts.iter().map(|m| AccountMeta { pubkey: Pubkey { bytes: m.pubkey.to_bytes() }, is_signer: m.is_signer, is_writable: m.is_writable }).collect(), ix.data))
}

/// Calls `serum_dex::instruction::cancel_order` with the order book
/// program's id; `side` is the number of the order book's side. `keys` are,
/// in order: market, bids, asks, open orders, open orders owner, event queue.
/// Claimed: it succeeds, naming the keys (all writable but the owner, which
/// signs), with data the bincode form of `(0u8, CancelOrderV2 { side,
/// order_id })`: the version, the variant index 11, the side and the id.
#[verifier::external_body]
pub(crate) fn dex_cancel_order(keys: [Pubkey; 6], side: u8, order_id: u128) -> (r: Option<Instruction>)
    requires
        side < 2,
    ensures
        r is Some,
        r->Some_0@.program_id == dex_program_key(),
        r->Some_0@.accounts == seq![
            meta(keys@[0]@, false, true), meta(keys@[1]@, false, true), meta(keys@[2]@, false, true),
            meta(keys@[3]@, false, true), meta(keys@[4]@, true, false), meta(keys@[5]@, false, true)],
        r->Some_0@.data == seq![0u8] + u32_le(11) + u32_le(side as u32) + u128_le(order_id),
{
    let [a, b, c, d, e, f] = keys.map(|p| Pk::new_from_array(p.bytes));
    let ix = cancel_order(&DEX_ID, &a, &b, &c, &d, &e, &f, Side::try_from(side).ok()?, order_id).ok()?;
    let accounts = ix.accounts.iter().map(|m| AccountMeta { pubkey: Pubkey { bytes: m.pubkey.to_bytes() }, is_signer: m.is_signer, is_writable: m.is_writable }).collect();
    Some(Instruction { program_id: Pubkey { bytes: ix.program_id.to_bytes() }, accounts, data: ix.data })
}

/// The borsh data of the metadata program's `CreateMetadataAccountV3`
/// instruction for the given name, symbol, uri, fee and mutability, with no
/// creators, collection, uses or collection details.
pub uninterp spec fn metadata_v3_data(name: Seq<char>, symbol: Seq<char>, uri: Seq<char>, seller_fee_basis_points: u16, is_mutable: bool) -> Seq<u8>;

/// Calls `mpl_token_metadata::instruction::create_metadata_accounts_v3` with
/// the metadata program's id and no creators, collection, uses or collection
/// details. `keys` are, in order: metadata, mint, mint authority, payer,
/// update authority. Claimed: it names them with the system program as
/// listed in its source; its data is named, a function of the name, symbol,
/// uri, fee and mutability.
#[verifier::external_body]
pub(crate) fn create_metadata_accounts_v3(
    keys: &[Pubkey; 5],
    name: String,
    symbol: String,
    uri: String,
    seller_fee_basis_points: u16,
    update_authority_is_signer: bool,
    is_mutable: bool,
) -> (r: Instruction)
    ensures
        r@.program_id == metadata_program_key(),
        r@.accounts == seq![
            meta(keys@[0]@, false, true), meta(keys@[1]@, false, false), meta(keys@[2]@, true, false),
            meta(keys@[3]@, true, true), meta(keys@[4]@, update_authority_is_signer, false), meta(zero_key(), false, false)],
        r@.data == metadata_v3_data(name@, symbol@, uri@, seller_fee_basis_points, is_mutable),
{
    let ks: Vec<sp::pubkey::Pubkey> = keys.iter().map(|p| Pk::new_from_array(p.bytes)).collect();
    let ix = mpl_token_metadata::instruction::create_metadata_accounts_v3(mpl_token_metadata::ID, ks[0], ks[1], ks[2], ks[3], ks[4], name, symbol, uri, None, seller_fee_basis_points, update_authority_is_signer, is_mutable, None, None, None);
    let accounts = ix.accounts.iter().map(|m| AccountMeta { pubkey: Pubkey { bytes: m.pubkey.to_bytes() }, is_signer: m.is_signer, is_writable: m.is_writable }).collect();
    Instruction { program_id: Pubkey { bytes: ix.program_id.to_bytes() }, accounts, data: ix.data }
}

} // verus!
