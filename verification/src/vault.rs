//! A vault program: an owner opens a vault at an address derived from a
//! name, anyone may pay lamports into it, and only its owner may take them
//! out.
use vstd::prelude::*;
use crate::model::{Pubkey, AccountInfo, Account, Cpi, zero_key, meta, u32_le, u64_le, system_program_id, token_program_id, token_program_key};
use crate::anchor::{AccountData, Error, first, lift, signer_error, program_error, mut_error, seeds_find_error, init_error, check_init, create_error, check_signer, check_program, check_mut, check_seeds_find, create, zeros, load, load_error, exit, exit_outcome, same_but_data, encoded, decoded, lemma_decode_encoded};
use crate::instructions::system_transfer;

verus! {

/// The program's address, `94syforMJhHfxQUkSNqTq6aUrkaJwW17BbaSFTfXe67j`.
pub open spec fn program_key() -> Seq<u8> {
    seq![119u8, 219, 224, 181, 239, 180, 90, 81, 45, 235, 15, 122, 166, 178, 101, 209,
        23, 94, 192, 197, 239, 233, 52, 168, 178, 126, 16, 16, 217, 172, 73, 34]
}

/// The program's address.
pub fn id() -> (r: Pubkey)
    ensures
        r@ == program_key(),
{
    let r = Pubkey::new_from_array([119u8, 219, 224, 181, 239, 180, 90, 81, 45, 235, 15, 122, 166, 178, 101, 209,
        23, 94, 192, 197, 239, 233, 52, 168, 178, 126, 16, 16, 217, 172, 73, 34]);
    assert(r@ =~= program_key());
    r
}

/// A vault: its owner.
#[derive(Clone, Copy, Debug)]
pub struct Vault {
    pub owner: Pubkey,
}

impl View for Vault {
    type V = Seq<u8>;

    open spec fn view(&self) -> Seq<u8> {
        self.owner@
    }
}

impl AccountData for Vault {
    open spec fn preimage() -> Seq<u8> {
        seq![97u8, 99, 99, 111, 117, 110, 116, 58, 86, 97, 117, 108, 116]
    }

    open spec fn body_of(v: Seq<u8>) -> Seq<u8> {
        v
    }

    open spec fn parse(bytes: Seq<u8>) -> Option<Seq<u8>> {
        if bytes.len() >= 32 { Some(bytes.take(32)) } else { None }
    }

    open spec fn valid(v: Seq<u8>) -> bool {
        v.len() == 32
    }

    fn preimage_bytes() -> (r: Vec<u8>) {
        let r = vec![97u8, 99, 99, 111, 117, 110, 116, 58, 86, 97, 117, 108, 116];
        assert(r@ =~= Self::preimage());
        r
    }

    fn encode_body(&self) -> (r: Vec<u8>) {
        self.owner.to_vec()
    }

    fn decode_body(bytes: &Vec<u8>, start: usize) -> (r: Option<Self>) {
        match Pubkey::read_at(bytes, start) {
            Some(owner) => Some(Vault { owner }),
            None => None,
        }
    }

    proof fn lemma_parse_body(v: Seq<u8>, rest: Seq<u8>) {
        assert((v + rest).take(32) =~= v);
    }

    proof fn lemma_valid(x: Self) {
    }
}

/// The program's own errors.
#[derive(Clone, Copy, Debug, PartialEq, Eq, Structural)]
pub enum ErrorCode {
    InvalidOwner,
}

impl ErrorCode {
    /// The number the program reports for the error.
    pub fn code(&self) -> (r: u32)
        ensures
            r == 6000,
    {
        match self {
            ErrorCode::InvalidOwner => 6000,
        }
    }

    /// The message of the error.
    pub fn msg(&self) -> (r: &'static str)
        ensures
            r@ == "User isn't the owner of this vault"@,
    {
        match self {
            ErrorCode::InvalidOwner => "User isn't the owner of this vault",
        }
    }
}

/// The data space of a vault: the discriminator and an address.
pub const VAULT_SPACE: usize = 8 + 32;

/// The accounts that open a vault.
pub struct Initialize {
    pub vault: Account<Vault>,
    pub owner: AccountInfo,
    pub system_program: AccountInfo,
}

/// The accounts that pay lamports into a vault.
pub struct DepositInto {
    pub vault: Account<Vault>,
    pub payer: AccountInfo,
    pub system_program: AccountInfo,
}

/// The accounts that pay lamports into a vault, with the token program.
pub struct DepositSPL {
    pub vault: Account<Vault>,
    pub payer: AccountInfo,
    pub system_program: AccountInfo,
    pub tokem_program: AccountInfo,
}

/// The accounts that take lamports out of a vault.
pub struct Withdraw {
    pub vault: Account<Vault>,
    pub user: AccountInfo,
    pub system_program: AccountInfo,
}

/// The seeds of the vault opened under `name`.
pub open spec fn vault_seeds(name: Seq<u8>) -> Seq<Seq<u8>> {
    seq![name]
}

/// The error, if any, with which the framework refuses the accounts of
/// `initialize`, in the order in which it checks them.
pub open spec fn initialize_error(program_id: Seq<u8>, vault: AccountInfo, owner: AccountInfo, system_program: AccountInfo, name: Seq<u8>) -> Option<Error<ErrorCode>> {
    first(lift(signer_error(owner)),
    first(lift(program_error(system_program, zero_key())),
    first(seeds_find_error(vault_seeds(name), program_id, vault.key@),
    first(lift(create_error::<Vault>(VAULT_SPACE as nat)),
    first(lift(init_error(vault, false)),
    lift(mut_error(owner)))))))
}

impl Initialize {
    /// Checks the accounts of `initialize` as the framework does, for a vault
    /// to be opened under `name`; returns them with the vault's bump. The
    /// vault is taken as the framework hands it over after the system program
    /// created it with `VAULT_SPACE` bytes for this program.
    pub fn try_accounts(program_id: &Pubkey, vault: AccountInfo, owner: AccountInfo, system_program: AccountInfo, name: &Vec<u8>) -> (r: Result<(Initialize, u8), Error<ErrorCode>>)
        ensures
            match initialize_error(program_id@, vault, owner, system_program, name@) {
                Some(e) => r == Err::<(Initialize, u8), Error<ErrorCode>>(e),
                None => r matches Ok((ctx, bump)) && {
                    &&& ctx.owner == owner && ctx.system_program == system_program
                    &&& ctx.vault.info.key == vault.key && ctx.vault.info.owner@ == program_id@
                    &&& ctx.vault.info.lamports == vault.lamports && ctx.vault.info.is_signer == vault.is_signer
                    &&& ctx.vault.info.is_writable == vault.is_writable && ctx.vault.info.executable == vault.executable
                    &&& ctx.vault.info.data@ == zeros(VAULT_SPACE as nat)
                    &&& ctx.vault.account@ == zero_key()
                    &&& crate::pda::is_canonical_bump(vault_seeds(name@), program_id@, vault.key@, bump)
                },
            },
    {
        if let Err(e) = check_signer(&owner) {
            return Err(Error::Anchor(e));
        }
        let system = system_program_id();
        if let Err(e) = check_program(&system_program, &system) {
            return Err(Error::Anchor(e));
        }
        let c = name.clone();
        assert(c@ =~= name@);
        assert(c.deep_view() =~= name@);
        let seeds = vec![c];
        assert(seeds.deep_view() =~= vault_seeds(name@));
        let bump = match check_seeds_find::<ErrorCode>(&seeds, program_id, &vault.key) {
            Ok(b) => b,
            Err(e) => return Err(e),
        };
        proof {
            assert(zeros(VAULT_SPACE as nat).skip(8).take(32) =~= zero_key());
        }
        let acc = match create::<Vault>(vault, VAULT_SPACE, program_id) {
            Ok(a) => a,
            Err(e) => return Err(Error::Anchor(e)),
        };
        if let Err(e) = check_init(&acc.info, false) {
            return Err(Error::Anchor(e));
        }
        if let Err(e) = check_mut(&owner) {
            return Err(Error::Anchor(e));
        }
        Ok((Initialize { vault: acc, owner, system_program }, bump))
    }
}


impl Initialize {
    /// Writes the vault back when the instruction ends.
    pub fn exit(&mut self, program_id: &Pubkey) -> (r: Result<(), Error<ErrorCode>>)
        ensures
            same_but_data(final(self).vault, old(self).vault),
            final(self).owner == old(self).owner,
            final(self).system_program == old(self).system_program,
            ({
                let (res, data) = exit_outcome::<Vault>(old(self).vault, program_key(), program_id@);
                &&& final(self).vault.info.data@ == data
                &&& (r is Ok <==> res is Ok)
                &&& res matches Err(e) ==> r == Err::<(), Error<ErrorCode>>(Error::Anchor(e))
            }),
    {
        let owner = id();
        match exit(&mut self.vault, &owner, program_id) {
            Ok(()) => Ok(()),
            Err(e) => Err(Error::Anchor(e)),
        }
    }
}

/// The error, if any, with which the framework refuses the accounts of a
/// deposit, in the order in which it checks them.
pub open spec fn deposit_into_error(vault: AccountInfo, payer: AccountInfo, system_program: AccountInfo) -> Option<Error<ErrorCode>> {
    first(lift(load_error::<Vault>(vault, program_key())),
    first(lift(signer_error(payer)),
    first(lift(program_error(system_program, zero_key())),
    first(lift(mut_error(vault)),
    lift(mut_error(payer))))))
}

impl DepositInto {
    /// Checks the accounts of `deposit_into_pda` as the framework does.
    pub fn try_accounts(vault: AccountInfo, payer: AccountInfo, system_program: AccountInfo) -> (r: Result<DepositInto, Error<ErrorCode>>)
        ensures
            match deposit_into_error(vault, payer, system_program) {
                Some(e) => r == Err::<DepositInto, Error<ErrorCode>>(e),
                None => r matches Ok(ctx) && ctx.vault.info == vault && ctx.payer == payer
                    && ctx.system_program == system_program
                    && Vault::parse(vault.data@.skip(8)) == Some(ctx.vault.account@),
            },
    {
        let owner = id();
        let v = match load::<Vault>(vault, &owner) {
            Ok(a) => a,
            Err(e) => return Err(Error::Anchor(e)),
        };
        if let Err(e) = check_signer(&payer) {
            return Err(Error::Anchor(e));
        }
        let system = system_program_id();
        if let Err(e) = check_program(&system_program, &system) {
            return Err(Error::Anchor(e));
        }
        if let Err(e) = check_mut(&v.info) {
            return Err(Error::Anchor(e));
        }
        if let Err(e) = check_mut(&payer) {
            return Err(Error::Anchor(e));
        }
        Ok(DepositInto { vault: v, payer, system_program })
    }
}

/// The error, if any, with which the framework refuses the accounts of
/// `deposit_spl`, in the order in which it checks them.
pub open spec fn deposit_spl_error(vault: AccountInfo, payer: AccountInfo, system_program: AccountInfo, tokem_program: AccountInfo) -> Option<Error<ErrorCode>> {
    first(lift(load_error::<Vault>(vault, program_key())),
    first(lift(signer_error(payer)),
    first(lift(program_error(system_program, zero_key())),
    first(lift(program_error(tokem_program, token_program_key())),
    first(lift(mut_error(vault)),
    lift(mut_error(payer)))))))
}

impl DepositSPL {
    /// Checks the accounts of `deposit_spl` as the framework does.
    pub fn try_accounts(vault: AccountInfo, payer: AccountInfo, system_program: AccountInfo, tokem_program: AccountInfo) -> (r: Result<DepositSPL, Error<ErrorCode>>)
        ensures
            match deposit_spl_error(vault, payer, system_program, tokem_program) {
                Some(e) => r == Err::<DepositSPL, Error<ErrorCode>>(e),
                None => r matches Ok(ctx) && ctx.vault.info == vault && ctx.payer == payer
                    && ctx.system_program == system_program && ctx.tokem_program == tokem_program
                    && Vault::parse(vault.data@.skip(8)) == Some(ctx.vault.account@),
            },
    {
        let owner = id();
        let v = match load::<Vault>(vault, &owner) {
            Ok(a) => a,
            Err(e) => return Err(Error::Anchor(e)),
        };
        if let Err(e) = check_signer(&payer) {
            return Err(Error::Anchor(e));
        }
        let system = system_program_id();
        if let Err(e) = check_program(&system_program, &system) {
            return Err(Error::Anchor(e));
        }
        let token = token_program_id();
        if let Err(e) = check_program(&tokem_program, &token) {
            return Err(Error::Anchor(e));
        }
        if let Err(e) = check_mut(&v.info) {
            return Err(Error::Anchor(e));
        }
        if let Err(e) = check_mut(&payer) {
            return Err(Error::Anchor(e));
        }
        Ok(DepositSPL { vault: v, payer, system_program, tokem_program })
    }
}

/// The error, if any, with which the framework refuses the accounts of a
/// withdrawal, in the order in which it checks them.
pub open spec fn withdraw_accounts_error(vault: AccountInfo, user: AccountInfo, system_program: AccountInfo) -> Option<Error<ErrorCode>> {
    first(lift(load_error::<Vault>(vault, program_key())),
    first(lift(signer_error(user)),
    first(lift(program_error(system_program, zero_key())),
    first(lift(mut_error(vault)),
    lift(mut_error(user))))))
}

impl Withdraw {
    /// Checks the accounts of `withdraw` as the framework does.
    pub fn try_accounts(vault: AccountInfo, user: AccountInfo, system_program: AccountInfo) -> (r: Result<Withdraw, Error<ErrorCode>>)
        ensures
            match withdraw_accounts_error(vault, user, system_program) {
                Some(e) => r == Err::<Withdraw, Error<ErrorCode>>(e),
                None => r matches Ok(ctx) && ctx.vault.info == vault && ctx.user == user
                    && ctx.system_program == system_program
                    && Vault::parse(vault.data@.skip(8)) == Some(ctx.vault.account@),
            },
    {
        let owner = id();
        let v = match load::<Vault>(vault, &owner) {
            Ok(a) => a,
            Err(e) => return Err(Error::Anchor(e)),
        };
        if let Err(e) = check_signer(&user) {
            return Err(Error::Anchor(e));
        }
        let system = system_program_id();
        if let Err(e) = check_program(&system_program, &system) {
            return Err(Error::Anchor(e));
        }
        if let Err(e) = check_mut(&v.info) {
            return Err(Error::Anchor(e));
        }
        if let Err(e) = check_mut(&user) {
            return Err(Error::Anchor(e));
        }
        Ok(Withdraw { vault: v, user, system_program })
    }
}

/// Opens the vault: its owner becomes the signer that opened it.
pub fn initialize(ctx: &mut Initialize, _name: &Vec<u8>) -> (r: Result<(), Error<ErrorCode>>)
    ensures
        r is Ok,
        final(ctx).vault.account.owner == old(ctx).owner.key,
        final(ctx).vault.info == old(ctx).vault.info,
        final(ctx).owner == old(ctx).owner,
        final(ctx).system_program == old(ctx).system_program,
{
    let owner = ctx.owner.key;
    ctx.vault.account.owner = owner;
    Ok(())
}

/// The transfer of `amount` lamports from `from` to `to` through the system
/// program, signed by no program address.
pub open spec fn is_plain_transfer(c: Cpi, from: Seq<u8>, to: Seq<u8>, amount: u64) -> bool {
    &&& c.instruction@.program_id == zero_key()
    &&& c.instruction@.accounts == seq![meta(from, true, true), meta(to, false, true)]
    &&& c.instruction@.data == u32_le(2) + u64_le(amount)
    &&& c.signer_seeds@.len() == 0
}

/// Pays `amount` lamports from the payer into the vault: the call to the
/// system program that does it.
pub fn deposit_into_pda(ctx: &DepositInto, amount: u64) -> (r: Cpi)
    ensures
        is_plain_transfer(r, ctx.payer.key@, ctx.vault.info.key@, amount),
{
    let ix = system_transfer(&ctx.payer.key, &ctx.vault.info.key, amount);
    Cpi { instruction: ix, signer_seeds: Vec::new() }
}

/// Pays `amount` lamports from the payer into the vault: the call to the
/// system program that does it.
pub fn deposit_spl(ctx: &DepositSPL, amount: u64) -> (r: Cpi)
    ensures
        is_plain_transfer(r, ctx.payer.key@, ctx.vault.info.key@, amount),
{
    let ix = system_transfer(&ctx.payer.key, &ctx.vault.info.key, amount);
    Cpi { instruction: ix, signer_seeds: Vec::new() }
}

/// The error of a withdrawal by `user` from a vault owned by `owner`.
pub open spec fn withdraw_error(owner: Seq<u8>, user: Seq<u8>) -> Option<Error<ErrorCode>> {
    if owner != user { Some(Error::Program(ErrorCode::InvalidOwner)) } else { None }
}

/// The accounts after a withdrawal of `amount`: the lamports moved from the
/// vault to the user, nothing else changed.
pub open spec fn withdraw_post(c: Withdraw, amount: u64) -> Withdraw {
    Withdraw {
        vault: Account {
            info: AccountInfo { lamports: (c.vault.info.lamports - amount) as u64, ..c.vault.info },
            account: c.vault.account,
        },
        user: AccountInfo { lamports: (c.user.lamports + amount) as u64, ..c.user },
        system_program: c.system_program,
    }
}

/// What a withdrawal of `amount` leaves and returns: refused with
/// `InvalidOwner`, nothing changed, where the user is not the vault's owner;
/// otherwise the lamports moved.
pub open spec fn withdraw_outcome(before: Withdraw, amount: u64, after: Withdraw, r: Result<(), Error<ErrorCode>>) -> bool {
    match withdraw_error(before.vault.account@, before.user.key@) {
        Some(e) => r == Err::<(), Error<ErrorCode>>(e) && after == before,
        None => r is Ok && after == withdraw_post(before, amount),
    }
}

/// Takes `amount` lamports out of the vault for its owner. Refused with
/// `InvalidOwner` where the signing user is not the vault's owner; then
/// nothing changes.
pub fn withdraw(ctx: &mut Withdraw, amount: u64) -> (r: Result<(), Error<ErrorCode>>)
    requires
        old(ctx).vault.account@ == old(ctx).user.key@ ==> amount <= old(ctx).vault.info.lamports
            && old(ctx).user.lamports + amount <= u64::MAX,
    ensures
        withdraw_outcome(*old(ctx), amount, *final(ctx), r),
        old(ctx).vault.account@ == old(ctx).user.key@ ==> {
            &&& r is Ok
            &&& final(ctx).vault.info.lamports == old(ctx).vault.info.lamports - amount
            &&& final(ctx).user.lamports == old(ctx).user.lamports + amount
        },
        old(ctx).vault.account@ != old(ctx).user.key@ ==> {
            &&& r == Err::<(), Error<ErrorCode>>(Error::Program(ErrorCode::InvalidOwner))
            &&& final(ctx).vault.info.lamports == old(ctx).vault.info.lamports
            &&& final(ctx).user.lamports == old(ctx).user.lamports
        },
{
    if !ctx.vault.account.owner.equals(&ctx.user.key) {
        return Err(Error::Program(ErrorCode::InvalidOwner));
    }
    ctx.vault.info.lamports = ctx.vault.info.lamports - amount;
    ctx.user.lamports = ctx.user.lamports + amount;
    Ok(())
}

impl DepositInto {
    /// Writes the vault back when the instruction ends.
    pub fn exit(&mut self, program_id: &Pubkey) -> (r: Result<(), Error<ErrorCode>>)
        ensures
            same_but_data(final(self).vault, old(self).vault),
            final(self).payer == old(self).payer,
            final(self).system_program == old(self).system_program,
            ({
                let (res, data) = exit_outcome::<Vault>(old(self).vault, program_key(), program_id@);
                &&& final(self).vault.info.data@ == data
                &&& (r is Ok <==> res is Ok)
                &&& res matches Err(e) ==> r == Err::<(), Error<ErrorCode>>(Error::Anchor(e))
            }),
    {
        let owner = id();
        match exit(&mut self.vault, &owner, program_id) {
            Ok(()) => Ok(()),
            Err(e) => Err(Error::Anchor(e)),
        }
    }
}

impl DepositSPL {
    /// Writes the vault back when the instruction ends.
    pub fn exit(&mut self, program_id: &Pubkey) -> (r: Result<(), Error<ErrorCode>>)
        ensures
            same_but_data(final(self).vault, old(self).vault),
            final(self).payer == old(self).payer,
            final(self).system_program == old(self).system_program,
            final(self).tokem_program == old(self).tokem_program,
            ({
                let (res, data) = exit_outcome::<Vault>(old(self).vault, program_key(), program_id@);
                &&& final(self).vault.info.data@ == data
                &&& (r is Ok <==> res is Ok)
                &&& res matches Err(e) ==> r == Err::<(), Error<ErrorCode>>(Error::Anchor(e))
            }),
    {
        let owner = id();
        match exit(&mut self.vault, &owner, program_id) {
            Ok(()) => Ok(()),
            Err(e) => Err(Error::Anchor(e)),
        }
    }
}

impl Withdraw {
    /// Writes the vault back when the instruction ends.
    pub fn exit(&mut self, program_id: &Pubkey) -> (r: Result<(), Error<ErrorCode>>)
        ensures
            same_but_data(final(self).vault, old(self).vault),
            final(self).user == old(self).user,
            final(self).system_program == old(self).system_program,
            ({
                let (res, data) = exit_outcome::<Vault>(old(self).vault, program_key(), program_id@);
                &&& final(self).vault.info.data@ == data
                &&& (r is Ok <==> res is Ok)
                &&& res matches Err(e) ==> r == Err::<(), Error<ErrorCode>>(Error::Anchor(e))
            }),
    {
        let owner = id();
        match exit(&mut self.vault, &owner, program_id) {
            Ok(()) => Ok(()),
            Err(e) => Err(Error::Anchor(e)),
        }
    }
}

/// A withdrawal moves lamports and never makes or destroys them, and only
/// the owner drains the vault: when the framework accepted the accounts of
/// `withdraw` and the handler ran, the vault and the user hold together
/// what they held before, and where the vault lost lamports the call
/// succeeded, the user is the vault's recorded owner and signed.
pub proof fn withdraw_conserves_lamports(vault: AccountInfo, user: AccountInfo, system_program: AccountInfo, before: Withdraw, after: Withdraw, r: Result<(), Error<ErrorCode>>, amount: u64)
    requires
        withdraw_accounts_error(vault, user, system_program) is None,
        before.vault.info == vault,
        before.user == user,
        Vault::parse(vault.data@.skip(8)) == Some(before.vault.account@),
        before.vault.account@ == before.user.key@ ==> amount <= before.vault.info.lamports
            && before.user.lamports + amount <= u64::MAX,
        withdraw_outcome(before, amount, after, r),
    ensures
        after.vault.info.lamports + after.user.lamports == before.vault.info.lamports + before.user.lamports,
        after.vault.info.lamports < before.vault.info.lamports ==> {
            &&& r is Ok
            &&& user.key@ == Vault::parse(vault.data@.skip(8))->Some_0
            &&& user.is_signer
        },
{
}

/// The owner's withdrawal moves exactly what was asked: where the signing
/// user is the vault's recorded owner and the vault holds at least `amount`,
/// the withdrawal succeeds, the vault holds `amount` lamports less and the
/// user `amount` more, and nothing else about the accounts changes.
pub proof fn owner_withdrawal_moves_exactly_amount(before: Withdraw, after: Withdraw, r: Result<(), Error<ErrorCode>>, amount: u64)
    requires
        withdraw_outcome(before, amount, after, r),
        before.vault.account@ == before.user.key@,
        amount <= before.vault.info.lamports,
        before.user.lamports + amount <= u64::MAX,
    ensures
        r is Ok,
        after.vault.info.lamports == before.vault.info.lamports - amount,
        after.user.lamports == before.user.lamports + amount,
        after.vault.account == before.vault.account,
        after.vault.info.key == before.vault.info.key,
        after.vault.info.data@ == before.vault.info.data@,
        after.user.key == before.user.key,
        after.user.data@ == before.user.data@,
{
}

/// Only the owner takes lamports out: once a vault opened by `opener` has
/// been written back (its data the encoding of the opener's key, whatever
/// follows), the framework reads the opener back as the owner, and a
/// withdrawal signed by `user` is refused exactly when `user` is not the
/// opener.
pub proof fn only_opener_withdraws(opener: Seq<u8>, rest: Seq<u8>, user: Seq<u8>)
    requires
        opener.len() == 32,
    ensures
        decoded::<Vault>(encoded::<Vault>(opener) + rest) == Some(opener),
        withdraw_error(opener, user) is None <==> user == opener,
        withdraw_error(opener, user) is Some ==> withdraw_error(opener, user) == Some(Error::<ErrorCode>::Program(ErrorCode::InvalidOwner)),
{
    lemma_decode_encoded::<Vault>(opener, rest);
}

} // verus!
