//! The framework's rules on accounts: how account data is laid out and read,
//! and the checks each declared account constraint makes.
use vstd::prelude::*;
use crate::model::{Pubkey, AccountInfo, Account, zero_key, rent_sysvar_key, rent_sysvar_id};
use crate::pda::{PdaError, create_program_address, try_find_program_address, create_outcome,
    is_canonical_bump, no_viable_bump, canonical_bump_unique, with_bump};

verus! {

/// The framework's error codes that account handling raises.
#[derive(Clone, Copy, Debug, PartialEq, Eq, Structural)]
pub enum AnchorError {
    ConstraintMut,
    ConstraintHasOne,
    ConstraintSigner,
    ConstraintRentExempt,
    ConstraintSeeds,
    ConstraintAssociated,
    ConstraintClose,
    ConstraintTokenMint,
    ConstraintTokenOwner,
    ConstraintAssociatedTokenTokenProgram,
    AccountDiscriminatorNotFound,
    AccountDiscriminatorMismatch,
    AccountDidNotDeserialize,
    AccountDidNotSerialize,
    AccountNotEnoughKeys,
    AccountOwnedByWrongProgram,
    InvalidProgramId,
    InvalidProgramExecutable,
    AccountNotSigner,
    AccountNotSystemOwned,
    AccountNotInitialized,
    AccountNotAssociatedTokenAccount,
    AccountSysvarMismatch,
}

pub open spec fn anchor_error_code(e: AnchorError) -> u32 {
    match e {
        AnchorError::ConstraintMut => 2000,
        AnchorError::ConstraintHasOne => 2001,
        AnchorError::ConstraintSigner => 2002,
        AnchorError::ConstraintRentExempt => 2005,
        AnchorError::ConstraintSeeds => 2006,
        AnchorError::ConstraintAssociated => 2009,
        AnchorError::ConstraintClose => 2011,
        AnchorError::ConstraintTokenMint => 2014,
        AnchorError::ConstraintTokenOwner => 2015,
        AnchorError::ConstraintAssociatedTokenTokenProgram => 2023,
        AnchorError::AccountDiscriminatorNotFound => 3001,
        AnchorError::AccountDiscriminatorMismatch => 3002,
        AnchorError::AccountDidNotDeserialize => 3003,
        AnchorError::AccountDidNotSerialize => 3004,
        AnchorError::AccountNotEnoughKeys => 3005,
        AnchorError::AccountOwnedByWrongProgram => 3007,
        AnchorError::InvalidProgramId => 3008,
        AnchorError::InvalidProgramExecutable => 3009,
        AnchorError::AccountNotSigner => 3010,
        AnchorError::AccountNotSystemOwned => 3011,
        AnchorError::AccountNotInitialized => 3012,
        AnchorError::AccountNotAssociatedTokenAccount => 3014,
        AnchorError::AccountSysvarMismatch => 3015,
    }
}

impl AnchorError {
    /// The number the framework reports for the error.
    pub fn code(&self) -> (r: u32)
        ensures
            r == anchor_error_code(*self),
    {
        match self {
            AnchorError::ConstraintMut => 2000,
            AnchorError::ConstraintHasOne => 2001,
            AnchorError::ConstraintSigner => 2002,
            AnchorError::ConstraintRentExempt => 2005,
            AnchorError::ConstraintSeeds => 2006,
            AnchorError::ConstraintAssociated => 2009,
            AnchorError::ConstraintClose => 2011,
            AnchorError::ConstraintTokenMint => 2014,
            AnchorError::ConstraintTokenOwner => 2015,
            AnchorError::ConstraintAssociatedTokenTokenProgram => 2023,
            AnchorError::AccountDiscriminatorNotFound => 3001,
            AnchorError::AccountDiscriminatorMismatch => 3002,
            AnchorError::AccountDidNotDeserialize => 3003,
            AnchorError::AccountDidNotSerialize => 3004,
            AnchorError::AccountNotEnoughKeys => 3005,
            AnchorError::AccountOwnedByWrongProgram => 3007,
            AnchorError::InvalidProgramId => 3008,
            AnchorError::InvalidProgramExecutable => 3009,
            AnchorError::AccountNotSigner => 3010,
            AnchorError::AccountNotSystemOwned => 3011,
            AnchorError::AccountNotInitialized => 3012,
            AnchorError::AccountNotAssociatedTokenAccount => 3014,
            AnchorError::AccountSysvarMismatch => 3015,
        }
    }
}

/// The runtime's errors that reading an account of the token program
/// raises.
#[derive(Clone, Copy, Debug, PartialEq, Eq, Structural)]
pub enum ProgramError {
    InvalidAccountData,
    UninitializedAccount,
}

/// An error of an instruction: one of the framework, one of the program,
/// one of the runtime, the absence of any bump seed for a declared derived
/// address (where the framework's `find_program_address` gives up), or a
/// failure of another program's library to build the instruction the program
/// calls it with.
#[derive(Clone, Copy, Debug, PartialEq, Eq, Structural)]
pub enum Error<E> {
    Anchor(AnchorError),
    Program(E),
    Runtime(ProgramError),
    BumpNotFound,
    InstructionBuild,
}

/// The SHA-256 digest of a byte string.
pub uninterp spec fn sha256(data: Seq<u8>) -> Seq<u8>;

/// Calls `solana_program::hash::hash`. Claimed: the result is the SHA-256
/// digest of `data`, a function of `data` alone.
#[verifier::external_body]
pub(crate) fn sha256_digest(data: &[u8]) -> (r: [u8; 32])
    ensures
        r@ == sha256(data@),
{
    anchor_lang::solana_program::hash::hash(data).to_bytes()
}

/// The data layout of a program account type: its name, from which its
/// discriminator is hashed, and the borsh form of its fields.
pub trait AccountData: Sized + View {
    /// `account:` followed by the type's name.
    spec fn preimage() -> Seq<u8>;

    /// The borsh bytes of a value.
    spec fn body_of(v: Self::V) -> Seq<u8>;

    /// The value borsh reads from the front of `bytes`, if any; trailing bytes
    /// are left unread.
    spec fn parse(bytes: Seq<u8>) -> Option<Self::V>;

    /// The views that values of the type have.
    spec fn valid(v: Self::V) -> bool;

    fn preimage_bytes() -> (r: Vec<u8>)
        ensures
            r@ == Self::preimage();

    fn encode_body(&self) -> (r: Vec<u8>)
        ensures
            r@ == Self::body_of(self@);

    fn decode_body(bytes: &Vec<u8>, start: usize) -> (r: Option<Self>)
        requires
            start <= bytes@.len(),
        ensures
            r is Some <==> Self::parse(bytes@.skip(start as int)) is Some,
            r matches Some(v) ==> Self::parse(bytes@.skip(start as int)) == Some(v@);

    /// Reading what was written gives the value back, whatever follows it.
    proof fn lemma_parse_body(v: Self::V, rest: Seq<u8>)
        requires
            Self::valid(v),
        ensures
            Self::parse(Self::body_of(v) + rest) == Some(v);

    /// Every value has a valid view.
    proof fn lemma_valid(x: Self)
        ensures
            Self::valid(x@);
}

/// The eight bytes that open the data of every account of type `T`.
pub open spec fn discriminator<T: AccountData>() -> Seq<u8> {
    Seq::new(8, |i: int| sha256(T::preimage())[i])
}

/// The full data the framework writes for a value: discriminator and body.
pub open spec fn encoded<T: AccountData>(v: T::V) -> Seq<u8> {
    discriminator::<T>() + T::body_of(v)
}

/// What the framework reads from account data: `None` where it fails.
pub open spec fn decoded<T: AccountData>(data: Seq<u8>) -> Option<T::V> {
    if data.len() < 8 || data.take(8) != discriminator::<T>() {
        None
    } else {
        T::parse(data.skip(8))
    }
}

/// The error with which reading `info` as an account of type `T` owned by
/// `owner` fails, if it does.
pub open spec fn load_error<T: AccountData>(info: AccountInfo, owner: Seq<u8>) -> Option<AnchorError> {
    if info.owner@ == zero_key() && info.lamports == 0 {
        Some(AnchorError::AccountNotInitialized)
    } else if info.owner@ != owner {
        Some(AnchorError::AccountOwnedByWrongProgram)
    } else if info.data@.len() < 8 {
        Some(AnchorError::AccountDiscriminatorNotFound)
    } else if info.data@.take(8) != discriminator::<T>() {
        Some(AnchorError::AccountDiscriminatorMismatch)
    } else if T::parse(info.data@.skip(8)) is None {
        Some(AnchorError::AccountDidNotDeserialize)
    } else {
        None
    }
}

/// Whatever follows the encoding of a value, the framework reads the value
/// back from it.
pub proof fn lemma_decode_encoded<T: AccountData>(v: T::V, rest: Seq<u8>)
    requires
        T::valid(v),
    ensures
        decoded::<T>(encoded::<T>(v) + rest) == Some(v),
{
    let d = encoded::<T>(v) + rest;
    assert(d.take(8) =~= discriminator::<T>());
    assert(d.skip(8) =~= T::body_of(v) + rest);
    T::lemma_parse_body(v, rest);
}

/// A helper for error precedence: the first error of two, if any.
pub open spec fn first<E>(a: Option<E>, b: Option<E>) -> Option<E> {
    if a is Some { a } else { b }
}

/// A framework error as an instruction error.
pub open spec fn lift<E>(e: Option<AnchorError>) -> Option<Error<E>> {
    match e {
        Some(a) => Some(Error::Anchor(a)),
        None => None,
    }
}

/// Computes the discriminator of `T`.
pub fn discriminator_of<T: AccountData>() -> (r: Vec<u8>)
    ensures
        r@ == discriminator::<T>(),
        r@.len() == 8,
{
    let pre = T::preimage_bytes();
    let digest = sha256_digest(pre.as_slice());
    let mut r: Vec<u8> = Vec::new();
    let mut i: usize = 0;
    while i < 8
        invariant
            i <= 8,
            digest@.len() == 32,
            digest@ == sha256(T::preimage()),
            r@ == digest@.take(i as int),
        decreases 8 - i,
    {
        r.push(digest[i]);
        i += 1;
        assert(r@ =~= digest@.take(i as int));
    }
    assert(r@ =~= discriminator::<T>());
    r
}

/// Whether `data` opens with `prefix`.
pub fn starts_with(data: &Vec<u8>, prefix: &Vec<u8>) -> (r: bool)
    ensures
        r == (prefix@.len() <= data@.len() && data@.take(prefix@.len() as int) == prefix@),
{
    if data.len() < prefix.len() {
        return false;
    }
    let mut i: usize = 0;
    while i < prefix.len()
        invariant
            i <= prefix@.len(),
            prefix@.len() <= data@.len(),
            forall|j: int| 0 <= j < i ==> data@[j] == prefix@[j],
        decreases prefix@.len() - i,
    {
        if data[i] != prefix[i] {
            assert(data@.take(prefix@.len() as int)[i as int] != prefix@[i as int]);
            return false;
        }
        i += 1;
    }
    assert(data@.take(prefix@.len() as int) =~= prefix@);
    true
}

/// Reads `info` as an account of type `T` owned by `owner`, as the framework
/// does for an `Account<T>` field.
pub fn load<T: AccountData>(info: AccountInfo, owner: &Pubkey) -> (r: Result<Account<T>, AnchorError>)
    ensures
        match load_error::<T>(info, owner@) {
            Some(e) => r == Err::<Account<T>, AnchorError>(e),
            None => r matches Ok(a) && a.info == info && T::parse(info.data@.skip(8)) == Some(a.account@),
        },
{
    let system = Pubkey::zeroed();
    if info.owner.equals(&system) && info.lamports == 0 {
        return Err(AnchorError::AccountNotInitialized);
    }
    if !info.owner.equals(owner) {
        return Err(AnchorError::AccountOwnedByWrongProgram);
    }
    if info.data.len() < 8 {
        return Err(AnchorError::AccountDiscriminatorNotFound);
    }
    let disc = discriminator_of::<T>();
    if !starts_with(&info.data, &disc) {
        return Err(AnchorError::AccountDiscriminatorMismatch);
    }
    match T::decode_body(&info.data, 8) {
        Some(v) => Ok(Account { info, account: v }),
        None => Err(AnchorError::AccountDidNotDeserialize),
    }
}

/// `n` zero bytes.
pub open spec fn zeros(n: nat) -> Seq<u8> {
    Seq::new(n, |i: int| 0u8)
}

/// The error, if any, with which the framework refuses an account it has
/// just created with `space` bytes for an `init` constraint: it reads the
/// zero data after the discriminator as a `T`, without a discriminator check,
/// and fails where that data does not hold one.
pub open spec fn create_error<T: AccountData>(space: nat) -> Option<AnchorError> {
    if T::parse(zeros(space).skip(8)) is None {
        Some(AnchorError::AccountDidNotDeserialize)
    } else {
        None
    }
}

/// The account as the framework hands it over after the system program
/// created it with `space` bytes of data for `owner`: its data zero, read as
/// `T` without a discriminator check, which fails where zero data of that
/// length holds no `T`. (The lamports the creation moves are the runtime's
/// business and are left as they were.)
pub fn create<T: AccountData>(info: AccountInfo, space: usize, owner: &Pubkey) -> (r: Result<Account<T>, AnchorError>)
    requires
        space >= 8,
    ensures
        match create_error::<T>(space as nat) {
            Some(e) => r == Err::<Account<T>, AnchorError>(e),
            None => r matches Ok(a) && {
                &&& a.info.key == info.key
                &&& a.info.owner == *owner
                &&& a.info.lamports == info.lamports
                &&& a.info.is_signer == info.is_signer
                &&& a.info.is_writable == info.is_writable
                &&& a.info.executable == info.executable
                &&& a.info.data@ == zeros(space as nat)
                &&& T::parse(zeros(space as nat).skip(8)) == Some(a.account@)
            },
        },
{
    let mut data: Vec<u8> = Vec::new();
    let mut i: usize = 0;
    while i < space
        invariant
            i <= space,
            data@ == zeros(i as nat),
        decreases space - i,
    {
        data.push(0u8);
        i += 1;
        assert(data@ =~= zeros(i as nat));
    }
    match T::decode_body(&data, 8) {
        Some(v) => {
            let new_info = AccountInfo { key: info.key, owner: *owner, lamports: info.lamports, data, is_signer: info.is_signer, is_writable: info.is_writable, executable: info.executable };
            Ok(Account { info: new_info, account: v })
        },
        None => Err(AnchorError::AccountDidNotDeserialize),
    }
}

/// Whether the framework takes an account as closed: owned by the system
/// program with no data.
pub open spec fn is_closed(info: AccountInfo) -> bool {
    info.owner@ == zero_key() && info.data@.len() == 0
}

/// The result of writing an account back when an instruction ends, and the
/// account's data afterwards: accounts of other programs and closed accounts
/// are left alone; otherwise the discriminator and body overwrite the front of
/// the data, which must be long enough.
pub open spec fn exit_outcome<T: AccountData>(acc: Account<T>, owner: Seq<u8>, program_id: Seq<u8>) -> (Result<(), AnchorError>, Seq<u8>) {
    let data = acc.info.data@;
    let enc = encoded::<T>(acc.account@);
    if owner != program_id || is_closed(acc.info) {
        (Ok(()), data)
    } else if enc.len() > data.len() {
        (Err(AnchorError::AccountDidNotSerialize), data)
    } else {
        (Ok(()), enc + data.skip(enc.len() as int))
    }
}

/// What one instruction writes back, the next one reads: when the framework
/// writes an account of the running program back at the end of an
/// instruction and succeeds, the data it leaves reads as the value written.
pub proof fn written_account_reads_back<T: AccountData>(acc: Account<T>, owner: Seq<u8>, program_id: Seq<u8>)
    requires
        owner == program_id,
        !is_closed(acc.info),
        exit_outcome::<T>(acc, owner, program_id).0 is Ok,
    ensures
        decoded::<T>(exit_outcome::<T>(acc, owner, program_id).1) == Some(acc.account@),
{
    T::lemma_valid(acc.account);
    let enc = encoded::<T>(acc.account@);
    lemma_decode_encoded::<T>(acc.account@, acc.info.data@.skip(enc.len() as int));
}

/// The account is the same but for its data.
pub open spec fn same_but_data<T>(a: Account<T>, b: Account<T>) -> bool {
    &&& a.account == b.account
    &&& a.info.key == b.info.key
    &&& a.info.owner == b.info.owner
    &&& a.info.lamports == b.info.lamports
    &&& a.info.is_signer == b.info.is_signer
    &&& a.info.is_writable == b.info.is_writable
    &&& a.info.executable == b.info.executable
}

/// Writes the value back into the account's data as the framework does when
/// an instruction ends (`owner` is the program the account type belongs to).
pub fn exit<T: AccountData>(acc: &mut Account<T>, owner: &Pubkey, program_id: &Pubkey) -> (r: Result<(), AnchorError>)
    ensures
        same_but_data(*final(acc), *old(acc)),
        (r, final(acc).info.data@) == exit_outcome::<T>(*old(acc), owner@, program_id@),
{
    let system = Pubkey::zeroed();
    if !owner.equals(program_id) || (acc.info.owner.equals(&system) && acc.info.data.len() == 0) {
        return Ok(());
    }
    let mut enc = discriminator_of::<T>();
    let mut body = acc.account.encode_body();
    enc.append(&mut body);
    if enc.len() > acc.info.data.len() {
        return Err(AnchorError::AccountDidNotSerialize);
    }
    let ghost old_data = acc.info.data@;
    let mut i: usize = 0;
    while i < enc.len()
        invariant
            i <= enc@.len(),
            enc@.len() <= old_data.len(),
            acc.info.data@.len() == old_data.len(),
            forall|j: int| 0 <= j < i ==> acc.info.data@[j] == enc@[j],
            forall|j: int| i <= j < old_data.len() ==> acc.info.data@[j] == old_data[j],
            same_but_data(*acc, *old(acc)),
        decreases enc@.len() - i,
    {
        acc.info.data.set(i, enc[i]);
        i += 1;
    }
    assert(acc.info.data@ =~= enc@ + old_data.skip(enc@.len() as int));
    Ok(())
}

/// Closes an account as the framework does for a `close = destination`
/// constraint when the instruction ends: its lamports go to the destination,
/// and it is handed back to the system program with no data.
pub fn close<T>(acc: &mut Account<T>, destination: &mut AccountInfo)
    requires
        old(destination).lamports + old(acc).info.lamports <= u64::MAX,
    ensures
        final(destination).lamports == old(destination).lamports + old(acc).info.lamports,
        final(destination).key == old(destination).key,
        final(destination).owner == old(destination).owner,
        final(destination).data == old(destination).data,
        final(destination).is_signer == old(destination).is_signer,
        final(destination).is_writable == old(destination).is_writable,
        final(destination).executable == old(destination).executable,
        final(acc).info.lamports == 0,
        final(acc).info.owner@ == zero_key(),
        final(acc).info.data@.len() == 0,
        final(acc).info.key == old(acc).info.key,
        final(acc).info.is_signer == old(acc).info.is_signer,
        final(acc).info.is_writable == old(acc).info.is_writable,
        final(acc).info.executable == old(acc).info.executable,
        final(acc).account == old(acc).account,
{
    destination.lamports = destination.lamports + acc.info.lamports;
    acc.info.lamports = 0;
    acc.info.owner = Pubkey::zeroed();
    acc.info.data = Vec::new();
}

/// The error of a `Signer` field, if any.
pub open spec fn signer_error(info: AccountInfo) -> Option<AnchorError> {
    if !info.is_signer { Some(AnchorError::AccountNotSigner) } else { None }
}

/// Checks a `Signer` field.
pub fn check_signer(info: &AccountInfo) -> (r: Result<(), AnchorError>)
    ensures
        match signer_error(*info) {
            Some(e) => r == Err::<(), AnchorError>(e),
            None => r is Ok,
        },
{
    if !info.is_signer { Err(AnchorError::AccountNotSigner) } else { Ok(()) }
}

/// The error of a `Program` field for the program `id`, if any.
pub open spec fn program_error(info: AccountInfo, id: Seq<u8>) -> Option<AnchorError> {
    if info.key@ != id {
        Some(AnchorError::InvalidProgramId)
    } else if !info.executable {
        Some(AnchorError::InvalidProgramExecutable)
    } else {
        None
    }
}

/// Checks a `Program` field for the program `id`.
pub fn check_program(info: &AccountInfo, id: &Pubkey) -> (r: Result<(), AnchorError>)
    ensures
        match program_error(*info, id@) {
            Some(e) => r == Err::<(), AnchorError>(e),
            None => r is Ok,
        },
{
    if !info.key.equals(id) {
        Err(AnchorError::InvalidProgramId)
    } else if !info.executable {
        Err(AnchorError::InvalidProgramExecutable)
    } else {
        Ok(())
    }
}

/// The error of a `SystemAccount` field, if any.
pub open spec fn system_account_error(info: AccountInfo) -> Option<AnchorError> {
    if info.owner@ != zero_key() { Some(AnchorError::AccountNotSystemOwned) } else { None }
}

/// Checks a `SystemAccount` field.
pub fn check_system_account(info: &AccountInfo) -> (r: Result<(), AnchorError>)
    ensures
        match system_account_error(*info) {
            Some(e) => r == Err::<(), AnchorError>(e),
            None => r is Ok,
        },
{
    let system = Pubkey::zeroed();
    if !info.owner.equals(&system) { Err(AnchorError::AccountNotSystemOwned) } else { Ok(()) }
}

/// The error of a `Sysvar<Rent>` field, if any: the account must be the
/// rent sysvar and its data must hold a rent record (a `u64`, an `f64` and a
/// `u8`: 17 bytes).
pub open spec fn rent_sysvar_error(info: AccountInfo) -> Option<AnchorError> {
    if info.key@ != rent_sysvar_key() || info.data@.len() < 17 {
        Some(AnchorError::AccountSysvarMismatch)
    } else {
        None
    }
}

/// Checks a `Sysvar<Rent>` field.
pub fn check_rent_sysvar(info: &AccountInfo) -> (r: Result<(), AnchorError>)
    ensures
        match rent_sysvar_error(*info) {
            Some(e) => r == Err::<(), AnchorError>(e),
            None => r is Ok,
        },
{
    let id = rent_sysvar_id();
    if !info.key.equals(&id) || info.data.len() < 17 {
        Err(AnchorError::AccountSysvarMismatch)
    } else {
        Ok(())
    }
}

/// The error of a `mut` constraint, if any.
pub open spec fn mut_error(info: AccountInfo) -> Option<AnchorError> {
    if !info.is_writable { Some(AnchorError::ConstraintMut) } else { None }
}

/// Checks a `mut` constraint.
pub fn check_mut(info: &AccountInfo) -> (r: Result<(), AnchorError>)
    ensures
        match mut_error(*info) {
            Some(e) => r == Err::<(), AnchorError>(e),
            None => r is Ok,
        },
{
    if !info.is_writable { Err(AnchorError::ConstraintMut) } else { Ok(()) }
}

/// The error, if any, of the checks the framework makes on an account right
/// after creating it for an `init` constraint: the account must be writable
/// and, where no seeds derive its address, a signer. (Its rent-exemption
/// check passes, since the creation funds the account for it.)
pub open spec fn init_error(info: AccountInfo, needs_signature: bool) -> Option<AnchorError> {
    if !info.is_writable {
        Some(AnchorError::ConstraintMut)
    } else if needs_signature && !info.is_signer {
        Some(AnchorError::ConstraintSigner)
    } else {
        None
    }
}

/// Checks an account created for an `init` constraint.
pub fn check_init(info: &AccountInfo, needs_signature: bool) -> (r: Result<(), AnchorError>)
    ensures
        match init_error(*info, needs_signature) {
            Some(e) => r == Err::<(), AnchorError>(e),
            None => r is Ok,
        },
{
    if !info.is_writable {
        Err(AnchorError::ConstraintMut)
    } else if needs_signature && !info.is_signer {
        Err(AnchorError::ConstraintSigner)
    } else {
        Ok(())
    }
}

/// The error of the rent-exemption check, if any: the account must hold at
/// least `minimum_balance`, the least balance the cluster's rent exempts for
/// its data length.
pub open spec fn rent_exempt_error(info: AccountInfo, minimum_balance: u64) -> Option<AnchorError> {
    if info.lamports < minimum_balance { Some(AnchorError::ConstraintRentExempt) } else { None }
}

/// Checks that an account is exempt from rent.
pub fn check_rent_exempt(info: &AccountInfo, minimum_balance: u64) -> (r: Result<(), AnchorError>)
    ensures
        match rent_exempt_error(*info, minimum_balance) {
            Some(e) => r == Err::<(), AnchorError>(e),
            None => r is Ok,
        },
{
    if info.lamports < minimum_balance { Err(AnchorError::ConstraintRentExempt) } else { Ok(()) }
}

/// How the framework has the system program create an account for an
/// `init` constraint, given the lamports the account holds and the least
/// balance the cluster's rent exempts for its space: an account without
/// lamports is created with that balance; one that already holds some is
/// topped up to that balance (at least one lamport) and then given its
/// space and owner.
#[derive(Clone, Copy, Debug, PartialEq, Eq, Structural)]
pub enum Creation {
    Create { lamports: u64 },
    Fund { top_up: u64 },
}

/// The creation the framework makes for an account holding `current`
/// lamports, with `minimum_balance` the rent-exempt balance of its space.
pub open spec fn creation_of(current: u64, minimum_balance: u64) -> Creation {
    if current == 0 {
        Creation::Create { lamports: minimum_balance }
    } else {
        let target: int = if minimum_balance == 0 { 1 } else { minimum_balance as int };
        Creation::Fund { top_up: if target > current { (target - current) as u64 } else { 0 } }
    }
}

/// Decides how the framework creates an account for an `init` constraint.
pub fn creation(current: u64, minimum_balance: u64) -> (r: Creation)
    ensures
        r == creation_of(current, minimum_balance),
{
    if current == 0 {
        Creation::Create { lamports: minimum_balance }
    } else {
        let target: u64 = if minimum_balance == 0 { 1 } else { minimum_balance };
        Creation::Fund { top_up: if target > current { target - current } else { 0 } }
    }
}

/// The error of a `has_one` constraint: the field's stored key must be the
/// target account's key.
pub open spec fn has_one_error(stored: Seq<u8>, target: Seq<u8>) -> Option<AnchorError> {
    if stored != target { Some(AnchorError::ConstraintHasOne) } else { None }
}

/// Checks a `has_one` constraint.
pub fn check_has_one(stored: &Pubkey, target: &AccountInfo) -> (r: Result<(), AnchorError>)
    ensures
        match has_one_error(stored@, target.key@) {
            Some(e) => r == Err::<(), AnchorError>(e),
            None => r is Ok,
        },
{
    if !stored.equals(&target.key) { Err(AnchorError::ConstraintHasOne) } else { Ok(()) }
}

/// The error of a `close = target` constraint: the account closed may not be
/// its own destination.
pub open spec fn close_error(info: AccountInfo, target: AccountInfo) -> Option<AnchorError> {
    if info.key@ == target.key@ { Some(AnchorError::ConstraintClose) } else { None }
}

/// Checks a `close` constraint.
pub fn check_close(info: &AccountInfo, target: &AccountInfo) -> (r: Result<(), AnchorError>)
    ensures
        match close_error(*info, *target) {
            Some(e) => r == Err::<(), AnchorError>(e),
            None => r is Ok,
        },
{
    if info.key.equals(&target.key) { Err(AnchorError::ConstraintClose) } else { Ok(()) }
}

/// The outcome of a `seeds` constraint with a given bump: the seeds and the
/// bump must derive the account's address.
pub open spec fn seeds_bump_error<E>(seeds: Seq<Seq<u8>>, bump: u8, program_id: Seq<u8>, key: Seq<u8>) -> Option<Error<E>> {
    match create_outcome(with_bump(seeds, bump), program_id) {
        Ok(k) => if k == key { None } else { Some(Error::Anchor(AnchorError::ConstraintSeeds)) },
        Err(_) => Some(Error::Anchor(AnchorError::ConstraintSeeds)),
    }
}

/// A copy of a list of seeds.
pub fn clone_seeds(seeds: &Vec<Vec<u8>>) -> (r: Vec<Vec<u8>>)
    ensures
        r.deep_view() == seeds.deep_view(),
{
    let mut r: Vec<Vec<u8>> = Vec::new();
    let mut i: usize = 0;
    while i < seeds.len()
        invariant
            i <= seeds@.len(),
            r@.len() == i,
            forall|j: int| 0 <= j < i ==> #[trigger] r@[j].deep_view() == seeds@[j].deep_view(),
        decreases seeds@.len() - i,
    {
        let s = seeds[i].clone();
        assert(s@ =~= seeds@[i as int]@);
        assert(s.deep_view() =~= seeds@[i as int].deep_view());
        r.push(s);
        i += 1;
    }
    assert(r.deep_view() =~= seeds.deep_view()) by {
        assert forall|j: int| 0 <= j < seeds@.len() implies r.deep_view()[j] == seeds.deep_view()[j] by {
            assert(r@[j].deep_view() == seeds@[j].deep_view());
        }
    }
    r
}

/// Checks a `seeds` constraint whose bump is given.
pub fn check_seeds_with_bump<E>(seeds: &Vec<Vec<u8>>, bump: u8, program_id: &Pubkey, key: &Pubkey) -> (r: Result<(), Error<E>>)
    ensures
        match seeds_bump_error::<E>(seeds.deep_view(), bump, program_id@, key@) {
            Some(e) => r == Err::<(), Error<E>>(e),
            None => r is Ok,
        },
{
    let mut with: Vec<Vec<u8>> = clone_seeds(seeds);
    let b = vec![bump];
    assert(b.deep_view() =~= seq![bump]);
    with.push(b);
    assert(with.deep_view() =~= with_bump(seeds.deep_view(), bump));
    match create_program_address(&with, program_id) {
        Ok(k) => if k.equals(key) { Ok(()) } else { Err(Error::Anchor(AnchorError::ConstraintSeeds)) },
        Err(_) => Err(Error::Anchor(AnchorError::ConstraintSeeds)),
    }
}

/// The outcome of a `seeds` constraint without a bump: the canonical bump is
/// searched for and the address it gives must be the account's.
pub open spec fn seeds_find_error<E>(seeds: Seq<Seq<u8>>, program_id: Seq<u8>, key: Seq<u8>) -> Option<Error<E>> {
    if no_viable_bump(seeds, program_id) {
        Some(Error::BumpNotFound)
    } else if !(exists|b: u8| is_canonical_bump(seeds, program_id, key, b)) {
        Some(Error::Anchor(AnchorError::ConstraintSeeds))
    } else {
        None
    }
}

/// Checks a `seeds` constraint without a bump; returns the canonical bump.
pub fn check_seeds_find<E>(seeds: &Vec<Vec<u8>>, program_id: &Pubkey, key: &Pubkey) -> (r: Result<u8, Error<E>>)
    ensures
        match seeds_find_error::<E>(seeds.deep_view(), program_id@, key@) {
            Some(e) => r == Err::<u8, Error<E>>(e),
            None => r matches Ok(b) && is_canonical_bump(seeds.deep_view(), program_id@, key@, b),
        },
{
    match try_find_program_address(seeds, program_id) {
        None => Err(Error::BumpNotFound),
        Some((k, b)) => {
            assert(!no_viable_bump(seeds.deep_view(), program_id@)) by {
                assert(crate::pda::derived_address(with_bump(seeds.deep_view(), b), program_id@) is Some);
                assert(with_bump(seeds.deep_view(), 0).len() == with_bump(seeds.deep_view(), b).len());
                assert forall|i: int| 0 <= i < with_bump(seeds.deep_view(), 0).len()
                    implies #[trigger] with_bump(seeds.deep_view(), 0)[i].len() == with_bump(seeds.deep_view(), b)[i].len() by {}
            }
            if k.equals(key) {
                Ok(b)
            } else {
                proof {
                    if exists|c: u8| is_canonical_bump(seeds.deep_view(), program_id@, key@, c) {
                        let c = choose|c: u8| is_canonical_bump(seeds.deep_view(), program_id@, key@, c);
                        canonical_bump_unique(seeds.deep_view(), program_id@, k@, b, key@, c);
                    }
                }
                Err(Error::Anchor(AnchorError::ConstraintSeeds))
            }
        },
    }
}

} // verus!
