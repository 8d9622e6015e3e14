//! A whitelist program: an authority opens a whitelist and then adds users,
//! each as an account at an address derived from the authority and the user,
//! and removes them by closing that account.
use vstd::prelude::*;
use crate::model::{Pubkey, AccountInfo, Account, zero_key, system_program_id};
use crate::anchor::{AccountData, Error, AnchorError, first, lift, signer_error, program_error, mut_error,
    close_error, seeds_find_error, init_error, check_init, create_error, load_error, check_signer, check_program, check_mut, check_close,
    check_seeds_find, create, zeros, load, exit, close, exit_outcome, same_but_data, encoded, decoded, discriminator};
use crate::pda::is_canonical_bump;

verus! {

/// The program's address, `Fg6PaFpoGXkYsidMpWTK6W2BeZ7FEfcYkg476zPFsLnS`.
pub open spec fn program_key() -> Seq<u8> {
    seq![218u8, 7, 92, 178, 255, 94, 198, 129, 118, 19, 222, 83, 11, 105, 42, 135,
        53, 71, 119, 105, 218, 71, 67, 12, 189, 129, 84, 51, 92, 74, 131, 39]
}

/// The program's address.
pub fn id() -> (r: Pubkey)
    ensures
        r@ == program_key(),
{
    let r = Pubkey::new_from_array([218u8, 7, 92, 178, 255, 94, 198, 129, 118, 19, 222, 83, 11, 105, 42, 135,
        53, 71, 119, 105, 218, 71, 67, 12, 189, 129, 84, 51, 92, 74, 131, 39]);
    assert(r@ =~= program_key());
    r
}

/// A whitelist: the authority that manages it.
#[derive(Clone, Copy, Debug)]
pub struct Whitelist {
    pub auth: Pubkey,
}

impl View for Whitelist {
    type V = Seq<u8>;

    open spec fn view(&self) -> Seq<u8> {
        self.auth@
    }
}

impl AccountData for Whitelist {
    open spec fn preimage() -> Seq<u8> {
        seq![97u8, 99, 99, 111, 117, 110, 116, 58, 87, 104, 105, 116, 101, 108, 105, 115, 116]
    }

    open spec fn body_of(v: Seq<u8>) -> Seq<u8> {
        v
    }

    open spec fn parse(bytes: Seq<u8>) -> Option<Seq<u8>> {
        if bytes.len() >= 32 { Some(bytes.take(32)) } else { None }
    }

    open spec fn valid(v: Seq<u8>) -> bool {
        v.len() == 32
    }

    fn preimage_bytes() -> (r: Vec<u8>) {
        let r = vec![97u8, 99, 99, 111, 117, 110, 116, 58, 87, 104, 105, 116, 101, 108, 105, 115, 116];
        assert(r@ =~= Self::preimage());
        r
    }

    fn encode_body(&self) -> (r: Vec<u8>) {
        self.auth.to_vec()
    }

    fn decode_body(bytes: &Vec<u8>, start: usize) -> (r: Option<Self>) {
        match Pubkey::read_at(bytes, start) {
            Some(auth) => Some(Whitelist { auth }),
            None => None,
        }
    }

    proof fn lemma_parse_body(v: Seq<u8>, rest: Seq<u8>) {
        assert((v + rest).take(32) =~= v);
    }

    proof fn lemma_valid(x: Self) {
    }
}

/// A user's entry on a whitelist; it holds nothing, its existence at the
/// derived address is what counts.
#[derive(Clone, Copy, Debug)]
pub struct WhitelistPDA {}

impl View for WhitelistPDA {
    type V = ();

    open spec fn view(&self) -> () {
        ()
    }
}

impl AccountData for WhitelistPDA {
    open spec fn preimage() -> Seq<u8> {
        seq![97u8, 99, 99, 111, 117, 110, 116, 58, 87, 104, 105, 116, 101, 108, 105, 115, 116, 80, 68, 65]
    }

    open spec fn body_of(v: ()) -> Seq<u8> {
        Seq::empty()
    }

    open spec fn parse(bytes: Seq<u8>) -> Option<()> {
        Some(())
    }

    open spec fn valid(v: ()) -> bool {
        true
    }

    fn preimage_bytes() -> (r: Vec<u8>) {
        let r = vec![97u8, 99, 99, 111, 117, 110, 116, 58, 87, 104, 105, 116, 101, 108, 105, 115, 116, 80, 68, 65];
        assert(r@ =~= Self::preimage());
        r
    }

    fn encode_body(&self) -> (r: Vec<u8>) {
        Vec::new()
    }

    fn decode_body(bytes: &Vec<u8>, start: usize) -> (r: Option<Self>) {
        Some(WhitelistPDA {})
    }

    proof fn lemma_parse_body(v: (), rest: Seq<u8>) {
    }

    proof fn lemma_valid(x: Self) {
    }
}

/// The program's own errors.
#[derive(Clone, Copy, Debug, PartialEq, Eq, Structural)]
pub enum ErrorCode {
    NotTheAuth,
}

impl ErrorCode {
    /// The number the program reports for the error.
    pub fn code(&self) -> (r: u32)
        ensures
            r == 6000,
    {
        match self {
            ErrorCode::NotTheAuth => 6000,
        }
    }

    /// The message of the error.
    pub fn msg(&self) -> (r: &'static str)
        ensures
            r@ == "User isn't the authority"@,
    {
        match self {
            ErrorCode::NotTheAuth => "User isn't the authority",
        }
    }
}

/// The data space the program gives a whitelist: the discriminator and eight
/// bytes, too few for the authority's address.
pub const WHITELIST_SPACE: usize = 8 + 8;

/// The data space of a whitelist entry: the discriminator.
pub const ENTRY_SPACE: usize = 8;

/// The accounts that open a whitelist.
pub struct Initialize {
    pub whitelist: Account<Whitelist>,
    pub initializer: AccountInfo,
    pub system_program: AccountInfo,
}

/// The accounts that add a user to a whitelist.
#[allow(non_snake_case)]
pub struct AddWhitelist {
    pub WhitelistPDA: Account<WhitelistPDA>,
    pub whitelist: Account<Whitelist>,
    pub signer: AccountInfo,
    pub system_program: AccountInfo,
}

/// The accounts that remove a user from a whitelist.
#[allow(non_snake_case)]
pub struct RemoveWhitelist {
    pub WhitelistPDA: Account<WhitelistPDA>,
    pub whitelist: Account<Whitelist>,
    pub signer: AccountInfo,
    pub system_program: AccountInfo,
}

/// The error, if any, with which the framework refuses the accounts of
/// `initialize`, in the order in which it checks them.
pub open spec fn initialize_error(whitelist: AccountInfo, initializer: AccountInfo, system_program: AccountInfo) -> Option<Error<ErrorCode>> {
    first(lift(signer_error(initializer)),
    first(lift(program_error(system_program, zero_key())),
    first(lift(create_error::<Whitelist>(WHITELIST_SPACE as nat)),
    first(lift(init_error(whitelist, true)),
    lift(mut_error(initializer))))))
}

impl Initialize {
    /// Checks the accounts of `initialize` as the framework does. The
    /// whitelist is taken as the framework hands it over after the system
    /// program created it with `WHITELIST_SPACE` bytes for this program; those
    /// bytes cannot hold a whitelist, so reading it back fails.
    pub fn try_accounts(program_id: &Pubkey, whitelist: AccountInfo, initializer: AccountInfo, system_program: AccountInfo) -> (r: Result<Initialize, Error<ErrorCode>>)
        ensures
            match initialize_error(whitelist, initializer, system_program) {
                Some(e) => r == Err::<Initialize, Error<ErrorCode>>(e),
                None => r matches Ok(ctx) && {
                    &&& ctx.initializer == initializer && ctx.system_program == system_program
                    &&& ctx.whitelist.info.key == whitelist.key && ctx.whitelist.info.owner@ == program_id@
                    &&& ctx.whitelist.info.lamports == whitelist.lamports
                    &&& ctx.whitelist.info.is_signer == whitelist.is_signer
                    &&& ctx.whitelist.info.is_writable == whitelist.is_writable
                    &&& ctx.whitelist.info.executable == whitelist.executable
                    &&& ctx.whitelist.info.data@ == zeros(WHITELIST_SPACE as nat)
                    &&& Whitelist::parse(zeros(WHITELIST_SPACE as nat).skip(8)) == Some(ctx.whitelist.account@)
                },
            },
    {
        if let Err(e) = check_signer(&initializer) {
            return Err(Error::Anchor(e));
        }
        let system = system_program_id();
        if let Err(e) = check_program(&system_program, &system) {
            return Err(Error::Anchor(e));
        }
        let wl = match create::<Whitelist>(whitelist, WHITELIST_SPACE, program_id) {
            Ok(a) => a,
            Err(e) => return Err(Error::Anchor(e)),
        };
        if let Err(e) = check_init(&wl.info, true) {
            return Err(Error::Anchor(e));
        }
        if let Err(e) = check_mut(&initializer) {
            return Err(Error::Anchor(e));
        }
        Ok(Initialize { whitelist: wl, initializer, system_program })
    }

    /// Writes the whitelist back when the instruction ends.
    pub fn exit(&mut self, program_id: &Pubkey) -> (r: Result<(), Error<ErrorCode>>)
        ensures
            same_but_data(final(self).whitelist, old(self).whitelist),
            final(self).initializer == old(self).initializer,
            final(self).system_program == old(self).system_program,
            ({
                let (res, data) = exit_outcome::<Whitelist>(old(self).whitelist, program_key(), program_id@);
                &&& final(self).whitelist.info.data@ == data
                &&& (r is Ok <==> res is Ok)
                &&& res matches Err(e) ==> r == Err::<(), Error<ErrorCode>>(Error::Anchor(e))
            }),
    {
        let owner = id();
        match exit(&mut self.whitelist, &owner, program_id) {
            Ok(()) => Ok(()),
            Err(e) => Err(Error::Anchor(e)),
        }
    }
}

/// The seeds of the entry that `authority` makes for `user`.
pub open spec fn entry_seeds(authority: Seq<u8>, user: Seq<u8>) -> Seq<Seq<u8>> {
    seq![authority, user]
}

/// The error, if any, with which the framework refuses the accounts of
/// `AddToWhitelist`, in the order in which it checks them.
pub open spec fn add_error(program_id: Seq<u8>, entry: AccountInfo, whitelist: AccountInfo, signer: AccountInfo, system_program: AccountInfo, new_user: Seq<u8>) -> Option<Error<ErrorCode>> {
    first(lift(load_error::<Whitelist>(whitelist, program_key())),
    first(lift(signer_error(signer)),
    first(lift(program_error(system_program, zero_key())),
    first(seeds_find_error(entry_seeds(signer.key@, new_user), program_id, entry.key@),
    first(lift(create_error::<WhitelistPDA>(ENTRY_SPACE as nat)),
    first(lift(init_error(entry, false)),
    first(lift(mut_error(whitelist)),
    lift(mut_error(signer)))))))))
}

impl AddWhitelist {
    /// Checks the accounts of `AddToWhitelist` as the framework does, for the
    /// user `new_user`; returns them with the entry's bump. The entry is taken
    /// as the framework hands it over after the system program created it with
    /// `ENTRY_SPACE` bytes for this program.
    #[allow(non_snake_case)]
    pub fn try_accounts(program_id: &Pubkey, WhitelistPDA: AccountInfo, whitelist: AccountInfo, signer: AccountInfo, system_program: AccountInfo, new_user: &Pubkey) -> (r: Result<(AddWhitelist, u8), Error<ErrorCode>>)
        ensures
            match add_error(program_id@, WhitelistPDA, whitelist, signer, system_program, new_user@) {
                Some(e) => r == Err::<(AddWhitelist, u8), Error<ErrorCode>>(e),
                None => r matches Ok((ctx, bump)) && {
                    &&& ctx.whitelist.info == whitelist && ctx.signer == signer && ctx.system_program == system_program
                    &&& Whitelist::parse(whitelist.data@.skip(8)) == Some(ctx.whitelist.account@)
                    &&& ctx.WhitelistPDA.info.key == WhitelistPDA.key && ctx.WhitelistPDA.info.owner@ == program_id@
                    &&& ctx.WhitelistPDA.info.lamports == WhitelistPDA.lamports
                    &&& ctx.WhitelistPDA.info.is_signer == WhitelistPDA.is_signer
                    &&& ctx.WhitelistPDA.info.is_writable == WhitelistPDA.is_writable
                    &&& ctx.WhitelistPDA.info.executable == WhitelistPDA.executable
                    &&& ctx.WhitelistPDA.info.data@ == zeros(ENTRY_SPACE as nat)
                    &&& is_canonical_bump(entry_seeds(signer.key@, new_user@), program_id@, WhitelistPDA.key@, bump)
                },
            },
    {
        let owner = id();
        let wl = match load::<Whitelist>(whitelist, &owner) {
            Ok(a) => a,
            Err(e) => return Err(Error::Anchor(e)),
        };
        if let Err(e) = check_signer(&signer) {
            return Err(Error::Anchor(e));
        }
        let system = system_program_id();
        if let Err(e) = check_program(&system_program, &system) {
            return Err(Error::Anchor(e));
        }
        let seeds = vec![signer.key.to_vec(), new_user.to_vec()];
        proof {
            assert(seeds@[0].deep_view() =~= signer.key@);
            assert(seeds@[1].deep_view() =~= new_user@);
            assert(seeds.deep_view() =~= entry_seeds(signer.key@, new_user@));
        }
        let bump = match check_seeds_find::<ErrorCode>(&seeds, program_id, &WhitelistPDA.key) {
            Ok(b) => b,
            Err(e) => return Err(e),
        };
        let entry = match create::<WhitelistPDA>(WhitelistPDA, ENTRY_SPACE, program_id) {
            Ok(a) => a,
            Err(e) => return Err(Error::Anchor(e)),
        };
        if let Err(e) = check_init(&entry.info, false) {
            return Err(Error::Anchor(e));
        }
        if let Err(e) = check_mut(&wl.info) {
            return Err(Error::Anchor(e));
        }
        if let Err(e) = check_mut(&signer) {
            return Err(Error::Anchor(e));
        }
        Ok((AddWhitelist { WhitelistPDA: entry, whitelist: wl, signer, system_program }, bump))
    }

    /// Writes the accounts back when the instruction ends, as the framework
    /// does: first the entry, then the whitelist; where writing the entry
    /// fails, the whitelist is left as it was.
    pub fn exit(&mut self, program_id: &Pubkey) -> (r: Result<(), Error<ErrorCode>>)
        ensures
            same_but_data(final(self).WhitelistPDA, old(self).WhitelistPDA),
            same_but_data(final(self).whitelist, old(self).whitelist),
            final(self).signer == old(self).signer,
            final(self).system_program == old(self).system_program,
            ({
                let (entry_res, entry_data) = exit_outcome::<WhitelistPDA>(old(self).WhitelistPDA, program_key(), program_id@);
                let (list_res, list_data) = exit_outcome::<Whitelist>(old(self).whitelist, program_key(), program_id@);
                &&& final(self).WhitelistPDA.info.data@ == entry_data
                &&& final(self).whitelist.info.data@ == (if entry_res is Ok { list_data } else { old(self).whitelist.info.data@ })
                &&& match entry_res {
                    Err(e) => r == Err::<(), Error<ErrorCode>>(Error::Anchor(e)),
                    Ok(_) => match list_res {
                        Err(e) => r == Err::<(), Error<ErrorCode>>(Error::Anchor(e)),
                        Ok(_) => r is Ok,
                    },
                }
            }),
    {
        let owner = id();
        if let Err(e) = exit(&mut self.WhitelistPDA, &owner, program_id) {
            return Err(Error::Anchor(e));
        }
        match exit(&mut self.whitelist, &owner, program_id) {
            Ok(()) => Ok(()),
            Err(e) => Err(Error::Anchor(e)),
        }
    }
}

/// The error, if any, with which the framework refuses the accounts of
/// `RemoveFromWhitelist`, in the order in which it checks them.
pub open spec fn remove_error(entry: AccountInfo, whitelist: AccountInfo, signer: AccountInfo, system_program: AccountInfo) -> Option<Error<ErrorCode>> {
    first(lift(load_error::<WhitelistPDA>(entry, program_key())),
    first(lift(load_error::<Whitelist>(whitelist, program_key())),
    first(lift(signer_error(signer)),
    first(lift(program_error(system_program, zero_key())),
    first(lift(mut_error(entry)),
    first(lift(close_error(entry, signer)),
    first(lift(mut_error(whitelist)),
    lift(mut_error(signer)))))))))
}

impl RemoveWhitelist {
    /// Checks the accounts of `RemoveFromWhitelist` as the framework does.
    #[allow(non_snake_case)]
    pub fn try_accounts(WhitelistPDA: AccountInfo, whitelist: AccountInfo, signer: AccountInfo, system_program: AccountInfo) -> (r: Result<RemoveWhitelist, Error<ErrorCode>>)
        ensures
            match remove_error(WhitelistPDA, whitelist, signer, system_program) {
                Some(e) => r == Err::<RemoveWhitelist, Error<ErrorCode>>(e),
                None => r matches Ok(ctx) && {
                    &&& ctx.WhitelistPDA.info == WhitelistPDA && ctx.whitelist.info == whitelist
                    &&& ctx.signer == signer && ctx.system_program == system_program
                    &&& Whitelist::parse(whitelist.data@.skip(8)) == Some(ctx.whitelist.account@)
                },
            },
    {
        let owner = id();
        let entry = match load::<WhitelistPDA>(WhitelistPDA, &owner) {
            Ok(a) => a,
            Err(e) => return Err(Error::Anchor(e)),
        };
        let wl = match load::<Whitelist>(whitelist, &owner) {
            Ok(a) => a,
            Err(e) => return Err(Error::Anchor(e)),
        };
        if let Err(e) = check_signer(&signer) {
            return Err(Error::Anchor(e));
        }
        let system = system_program_id();
        if let Err(e) = check_program(&system_program, &system) {
            return Err(Error::Anchor(e));
        }
        if let Err(e) = check_mut(&entry.info) {
            return Err(Error::Anchor(e));
        }
        if let Err(e) = check_close(&entry.info, &signer) {
            return Err(Error::Anchor(e));
        }
        if let Err(e) = check_mut(&wl.info) {
            return Err(Error::Anchor(e));
        }
        if let Err(e) = check_mut(&signer) {
            return Err(Error::Anchor(e));
        }
        Ok(RemoveWhitelist { WhitelistPDA: entry, whitelist: wl, signer, system_program })
    }

    /// Ends the instruction as the framework does: the entry is closed into
    /// the signer, then the whitelist is written back.
    pub fn exit(&mut self, program_id: &Pubkey) -> (r: Result<(), Error<ErrorCode>>)
        requires
            old(self).signer.lamports + old(self).WhitelistPDA.info.lamports <= u64::MAX,
        ensures
            final(self).signer.lamports == old(self).signer.lamports + old(self).WhitelistPDA.info.lamports,
            final(self).signer.key == old(self).signer.key,
            final(self).signer.owner == old(self).signer.owner,
            final(self).signer.data == old(self).signer.data,
            final(self).signer.is_signer == old(self).signer.is_signer,
            final(self).signer.is_writable == old(self).signer.is_writable,
            final(self).signer.executable == old(self).signer.executable,
            final(self).system_program == old(self).system_program,
            final(self).WhitelistPDA.info.lamports == 0,
            final(self).WhitelistPDA.info.owner@ == zero_key(),
            final(self).WhitelistPDA.info.data@.len() == 0,
            final(self).WhitelistPDA.info.key == old(self).WhitelistPDA.info.key,
            final(self).WhitelistPDA.info.is_signer == old(self).WhitelistPDA.info.is_signer,
            final(self).WhitelistPDA.info.is_writable == old(self).WhitelistPDA.info.is_writable,
            final(self).WhitelistPDA.info.executable == old(self).WhitelistPDA.info.executable,
            final(self).WhitelistPDA.account == old(self).WhitelistPDA.account,
            same_but_data(final(self).whitelist, old(self).whitelist),
            ({
                let (res, data) = exit_outcome::<Whitelist>(old(self).whitelist, program_key(), program_id@);
                &&& final(self).whitelist.info.data@ == data
                &&& (r is Ok <==> res is Ok)
                &&& res matches Err(e) ==> r == Err::<(), Error<ErrorCode>>(Error::Anchor(e))
            }),
    {
        close(&mut self.WhitelistPDA, &mut self.signer);
        let owner = id();
        match exit(&mut self.whitelist, &owner, program_id) {
            Ok(()) => Ok(()),
            Err(e) => Err(Error::Anchor(e)),
        }
    }
}

/// Opens the whitelist: its authority becomes the signer that opened it.
pub fn initialize(ctx: &mut Initialize) -> (r: Result<(), Error<ErrorCode>>)
    ensures
        r is Ok,
        final(ctx).whitelist.account.auth == old(ctx).initializer.key,
        final(ctx).whitelist.info == old(ctx).whitelist.info,
        final(ctx).initializer == old(ctx).initializer,
        final(ctx).system_program == old(ctx).system_program,
{
    let auth = ctx.initializer.key;
    ctx.whitelist.account.auth = auth;
    Ok(())
}

/// The error with which a change to a whitelist managed by `auth` is refused
/// when `signer` asks for it.
pub open spec fn auth_error(auth: Seq<u8>, signer: Seq<u8>) -> Option<Error<ErrorCode>> {
    if signer != auth { Some(Error::Program(ErrorCode::NotTheAuth)) } else { None }
}

/// Adds `new_user`: allowed only to the whitelist's authority, refused with
/// `NotTheAuth` otherwise. (The entry itself is the account the framework
/// created at the address derived from the signer and the user.)
#[allow(non_snake_case)]
pub fn AddToWhitelist(ctx: &AddWhitelist, new_user: Pubkey) -> (r: Result<(), Error<ErrorCode>>)
    ensures
        match auth_error(ctx.whitelist.account@, ctx.signer.key@) {
            Some(e) => r == Err::<(), Error<ErrorCode>>(e),
            None => r is Ok,
        },
{
    if !ctx.signer.key.equals(&ctx.whitelist.account.auth) {
        return Err(Error::Program(ErrorCode::NotTheAuth));
    }
    Ok(())
}

/// Removes a user: allowed only to the whitelist's authority, refused with
/// `NotTheAuth` otherwise. (The entry is closed when the instruction ends.)
#[allow(non_snake_case)]
pub fn RemoveFromWhitelist(ctx: &RemoveWhitelist) -> (r: Result<(), Error<ErrorCode>>)
    ensures
        match auth_error(ctx.whitelist.account@, ctx.signer.key@) {
            Some(e) => r == Err::<(), Error<ErrorCode>>(e),
            None => r is Ok,
        },
{
    if !ctx.signer.key.equals(&ctx.whitelist.account.auth) {
        return Err(Error::Program(ErrorCode::NotTheAuth));
    }
    Ok(())
}

/// A whitelist is never opened: the program gives it `WHITELIST_SPACE`
/// bytes, fewer than the discriminator and the authority's address take, so
/// the framework cannot read the created account back and refuses the
/// accounts of `initialize` with `AccountDidNotDeserialize` wherever the
/// signer and the system program pass their checks; the handler never runs.
pub proof fn opened_whitelist_never_accepted(whitelist: AccountInfo, initializer: AccountInfo, system_program: AccountInfo)
    ensures
        initialize_error(whitelist, initializer, system_program) is Some,
        signer_error(initializer) is None && program_error(system_program, zero_key()) is None
            ==> initialize_error(whitelist, initializer, system_program)
                == Some(Error::<ErrorCode>::Anchor(AnchorError::AccountDidNotDeserialize)),
{
    assert(zeros(WHITELIST_SPACE as nat).skip(8).len() == 8);
}

/// An added user's entry holds its discriminator: writing back the entry
/// that `AddToWhitelist` created for this program succeeds, leaves exactly
/// the discriminator of `WhitelistPDA` in its data, and the framework then
/// reads the account as a whitelist entry.
pub proof fn added_entry_reads_as_entry(entry: Account<WhitelistPDA>, after: AccountInfo)
    requires
        entry.info.owner@ == program_key(),
        entry.info.data@ == zeros(ENTRY_SPACE as nat),
        after.owner == entry.info.owner,
        after.data@ == exit_outcome::<WhitelistPDA>(entry, program_key(), program_key()).1,
    ensures
        exit_outcome::<WhitelistPDA>(entry, program_key(), program_key()).0 is Ok,
        after.data@ == discriminator::<WhitelistPDA>(),
        load_error::<WhitelistPDA>(after, program_key()) is None,
{
    assert(program_key()[0] != zero_key()[0]);
    let enc = encoded::<WhitelistPDA>(entry.account@);
    assert(enc =~= discriminator::<WhitelistPDA>());
    assert(enc + entry.info.data@.skip(8) =~= discriminator::<WhitelistPDA>());
    assert(after.data@.take(8) =~= discriminator::<WhitelistPDA>());
}

/// An added user can be removed: where the framework accepted the accounts
/// of `AddToWhitelist`, and the entry and the whitelist were written back
/// (the entry holding its discriminator, the whitelist reading as a
/// whitelist), the same whitelist, signer and system program with that
/// entry pass the checks of `RemoveFromWhitelist`, provided the entry is not
/// the signer's own account (which the removal may not close into itself).
pub proof fn added_entry_can_be_removed(entry: AccountInfo, whitelist: AccountInfo, signer: AccountInfo, system_program: AccountInfo, new_user: Seq<u8>, entry_after: AccountInfo, whitelist_after: AccountInfo)
    requires
        add_error(program_key(), entry, whitelist, signer, system_program, new_user) is None,
        entry_after.key == entry.key,
        entry_after.owner@ == program_key(),
        entry_after.is_writable == entry.is_writable,
        entry_after.data@ == discriminator::<WhitelistPDA>(),
        whitelist_after.key == whitelist.key,
        whitelist_after.owner == whitelist.owner,
        whitelist_after.is_writable == whitelist.is_writable,
        decoded::<Whitelist>(whitelist_after.data@) is Some,
        entry.key@ != signer.key@,
    ensures
        remove_error(entry_after, whitelist_after, signer, system_program) is None,
{
    assert(program_key()[0] != zero_key()[0]);
    assert(entry_after.data@.take(8) =~= discriminator::<WhitelistPDA>());
}

/// Only the authority changes the whitelist: adding and removing are refused
/// with `NotTheAuth` exactly when the signer is not the stored authority.
pub proof fn only_authority_changes_whitelist(auth: Seq<u8>, signer: Seq<u8>)
    ensures
        auth_error(auth, signer) is None <==> signer == auth,
        auth_error(auth, signer) is Some ==> auth_error(auth, signer) == Some(Error::<ErrorCode>::Program(ErrorCode::NotTheAuth)),
{
}

} // verus!
