//! Plain-value model of the runtime objects the programs work with:
//! addresses, account views, instructions and the framework's error codes.
use vstd::prelude::*;

verus! {

/// A 32-byte account address.
#[derive(Clone, Copy, Debug)]
pub struct Pubkey {
    pub bytes: [u8; 32],
}

impl View for Pubkey {
    type V = Seq<u8>;

    open spec fn view(&self) -> Seq<u8> {
        self.bytes@
    }
}

/// The address made of 32 zero bytes: the system program.
pub open spec fn zero_key() -> Seq<u8> {
    Seq::new(32, |i: int| 0u8)
}

impl Pubkey {
    /// Builds an address from its bytes.
    pub fn new_from_array(bytes: [u8; 32]) -> (r: Pubkey)
        ensures
            r@ == bytes@,
    {
        Pubkey { bytes }
    }

    /// The address whose bytes are all zero.
    pub fn zeroed() -> (r: Pubkey)
        ensures
            r@ == zero_key(),
    {
        let mut bytes = [1u8; 32];
        let mut i: usize = 0;
        while i < 32
            invariant
                i <= 32,
                bytes@.len() == 32,
                forall|j: int| 0 <= j < i ==> bytes@[j] == 0,
            decreases 32 - i,
        {
            bytes[i] = 0;
            i += 1;
        }
        let r = Pubkey { bytes };
        assert(r@ =~= zero_key());
        r
    }

    /// Whether two addresses are the same.
    pub fn equals(&self, other: &Pubkey) -> (r: bool)
        ensures
            r == (self@ == other@),
    {
        let mut i: usize = 0;
        while i < 32
            invariant
                i <= 32,
                self@.len() == 32,
                other@.len() == 32,
                forall|j: int| 0 <= j < i ==> self@[j] == other@[j],
            decreases 32 - i,
        {
            if self.bytes[i] != other.bytes[i] {
                return false;
            }
            i += 1;
        }
        assert(self@ =~= other@);
        true
    }

    /// The address's bytes as a vector.
    pub fn to_vec(&self) -> (r: Vec<u8>)
        ensures
            r@ == self@,
    {
        let mut v: Vec<u8> = Vec::new();
        let mut i: usize = 0;
        while i < 32
            invariant
                i <= 32,
                self@.len() == 32,
                v@ == self@.take(i as int),
            decreases 32 - i,
        {
            v.push(self.bytes[i]);
            i += 1;
            assert(v@ =~= self@.take(i as int));
        }
        assert(self@.take(32) =~= self@);
        v
    }

    /// Reads the 32 bytes at `start` as an address, if there are that many.
    pub fn read_at(bytes: &Vec<u8>, start: usize) -> (r: Option<Pubkey>)
        requires
            start <= bytes@.len(),
        ensures
            r is Some <==> bytes@.len() - start >= 32,
            r matches Some(k) ==> k@ == bytes@.skip(start as int).take(32),
    {
        if bytes.len() - start < 32 {
            return None;
        }
        let mut out = [0u8; 32];
        let mut i: usize = 0;
        while i < 32
            invariant
                i <= 32,
                start + 32 <= bytes.len(),
                out@.len() == 32,
                forall|j: int| 0 <= j < i ==> out@[j] == bytes@[start + j],
            decreases 32 - i,
        {
            out[i] = bytes[start + i];
            i += 1;
        }
        assert(out@ =~= bytes@.skip(start as int).take(32));
        Some(Pubkey { bytes: out })
    }
}

} // verus!

verus! {

/// What a program sees of an account handed to an instruction.
pub struct AccountInfo {
    pub key: Pubkey,
    pub owner: Pubkey,
    pub lamports: u64,
    pub data: Vec<u8>,
    pub is_signer: bool,
    pub is_writable: bool,
    pub executable: bool,
}

/// Two account views show the same account in the same state.
pub open spec fn same_info(a: AccountInfo, b: AccountInfo) -> bool {
    &&& a.key == b.key
    &&& a.owner == b.owner
    &&& a.lamports == b.lamports
    &&& a.data@ == b.data@
    &&& a.is_signer == b.is_signer
    &&& a.is_writable == b.is_writable
    &&& a.executable == b.executable
}

impl AccountInfo {
    /// A copy of the account view.
    pub fn duplicate(&self) -> (r: AccountInfo)
        ensures
            same_info(r, *self),
    {
        let data = self.data.clone();
        assert(data@ =~= self.data@);
        AccountInfo {
            key: self.key,
            owner: self.owner,
            lamports: self.lamports,
            data,
            is_signer: self.is_signer,
            is_writable: self.is_writable,
            executable: self.executable,
        }
    }
}

/// An account whose data was read as a `T`.
pub struct Account<T> {
    pub info: AccountInfo,
    pub account: T,
}

/// An account an instruction names, with its access rights.
#[derive(Clone, Copy, Debug)]
pub struct AccountMeta {
    pub pubkey: Pubkey,
    pub is_signer: bool,
    pub is_writable: bool,
}

impl View for AccountMeta {
    type V = (Seq<u8>, bool, bool);

    open spec fn view(&self) -> (Seq<u8>, bool, bool) {
        (self.pubkey@, self.is_signer, self.is_writable)
    }
}

/// An instruction to another program: its id, the accounts it names and its
/// data.
pub struct Instruction {
    pub program_id: Pubkey,
    pub accounts: Vec<AccountMeta>,
    pub data: Vec<u8>,
}

/// The plain content of an instruction.
pub struct InstructionView {
    pub program_id: Seq<u8>,
    pub accounts: Seq<(Seq<u8>, bool, bool)>,
    pub data: Seq<u8>,
}

impl View for Instruction {
    type V = InstructionView;

    open spec fn view(&self) -> InstructionView {
        InstructionView {
            program_id: self.program_id@,
            accounts: self.accounts@.map_values(|m: AccountMeta| m@),
            data: self.data@,
        }
    }
}

/// A call into another program that a handler makes: the instruction and the
/// seeds with which the calling program signs for one of its derived
/// addresses (none where it signs for none).
pub struct Cpi {
    pub instruction: Instruction,
    pub signer_seeds: Vec<Vec<u8>>,
}

/// The little-endian bytes of a `u16`.
pub open spec fn u16_le(x: u16) -> Seq<u8> {
    seq![(x & 0xff) as u8, ((x >> 8u16) & 0xff) as u8]
}

/// The little-endian bytes of a `u32`.
pub open spec fn u32_le(x: u32) -> Seq<u8> {
    seq![
        (x & 0xff) as u8,
        ((x >> 8u32) & 0xff) as u8,
        ((x >> 16u32) & 0xff) as u8,
        ((x >> 24u32) & 0xff) as u8,
    ]
}

/// The little-endian bytes of a `u64`.
pub open spec fn u64_le(x: u64) -> Seq<u8> {
    seq![
        (x & 0xff) as u8,
        ((x >> 8u64) & 0xff) as u8,
        ((x >> 16u64) & 0xff) as u8,
        ((x >> 24u64) & 0xff) as u8,
        ((x >> 32u64) & 0xff) as u8,
        ((x >> 40u64) & 0xff) as u8,
        ((x >> 48u64) & 0xff) as u8,
        ((x >> 56u64) & 0xff) as u8,
    ]
}

/// The little-endian bytes of a `u128`.
pub open spec fn u128_le(x: u128) -> Seq<u8> {
    u64_le((x & 0xffff_ffff_ffff_ffff) as u64) + u64_le((x >> 64u128) as u64)
}

/// An account meta as a plain triple.
pub open spec fn meta(key: Seq<u8>, is_signer: bool, is_writable: bool) -> (Seq<u8>, bool, bool) {
    (key, is_signer, is_writable)
}

/// `TokenkegQfeZyiNwAJbNbGKPFXCWuBvf9Ss623VQ5DA`, the token program.
pub open spec fn token_program_key() -> Seq<u8> {
    seq![6u8, 221, 246, 225, 215, 101, 161, 147, 217, 203, 225, 70, 206, 235, 121, 172,
        28, 180, 133, 237, 95, 91, 55, 145, 58, 140, 245, 133, 126, 255, 0, 169]
}

/// `srmqPvymJeFKQ4zGQed1GFppgkRHL9kaELCbyksJtPX`, the order book program.
pub open spec fn dex_program_key() -> Seq<u8> {
    seq![13u8, 7, 81, 168, 40, 45, 166, 19, 5, 254, 41, 156, 55, 185, 152, 229,
        132, 113, 219, 17, 53, 3, 115, 16, 248, 190, 16, 69, 166, 10, 246, 238]
}

/// `metaqbxxUerdq28cj1RbAWkYQm3ybzjb6a8bt518x1s`, the token metadata program.
pub open spec fn metadata_program_key() -> Seq<u8> {
    seq![11u8, 112, 101, 177, 227, 209, 124, 69, 56, 157, 82, 127, 107, 4, 195, 205,
        88, 184, 108, 115, 26, 160, 253, 181, 73, 182, 209, 188, 3, 248, 41, 70]
}

/// `SysvarRent111111111111111111111111111111111`, the rent sysvar.
pub open spec fn rent_sysvar_key() -> Seq<u8> {
    seq![6u8, 167, 213, 23, 25, 44, 92, 81, 33, 140, 201, 76, 61, 74, 241, 127,
        88, 218, 238, 8, 155, 161, 253, 68, 227, 219, 217, 138, 0, 0, 0, 0]
}

/// `ATokenGPvbdGVxr1b2hvZbsiqW5xWH25efTNsLJA8knL`, the associated token
/// account program.
pub open spec fn associated_token_program_key() -> Seq<u8> {
    seq![140u8, 151, 37, 143, 78, 36, 137, 241, 187, 61, 16, 41, 20, 142, 13, 131,
        11, 90, 19, 153, 218, 255, 16, 132, 4, 142, 123, 216, 219, 233, 248, 89]
}

/// The system program.
pub fn system_program_id() -> (r: Pubkey)
    ensures
        r@ == zero_key(),
{
    Pubkey::zeroed()
}

/// The token program.
pub fn token_program_id() -> (r: Pubkey)
    ensures
        r@ == token_program_key(),
{
    let r = Pubkey::new_from_array([6u8, 221, 246, 225, 215, 101, 161, 147, 217, 203, 225, 70, 206, 235, 121, 172,
        28, 180, 133, 237, 95, 91, 55, 145, 58, 140, 245, 133, 126, 255, 0, 169]);
    assert(r@ =~= token_program_key());
    r
}

/// The order book program.
pub fn dex_program_id() -> (r: Pubkey)
    ensures
        r@ == dex_program_key(),
{
    let r = Pubkey::new_from_array([13u8, 7, 81, 168, 40, 45, 166, 19, 5, 254, 41, 156, 55, 185, 152, 229,
        132, 113, 219, 17, 53, 3, 115, 16, 248, 190, 16, 69, 166, 10, 246, 238]);
    assert(r@ =~= dex_program_key());
    r
}

/// The token metadata program.
pub fn metadata_program_id() -> (r: Pubkey)
    ensures
        r@ == metadata_program_key(),
{
    let r = Pubkey::new_from_array([11u8, 112, 101, 177, 227, 209, 124, 69, 56, 157, 82, 127, 107, 4, 195, 205,
        88, 184, 108, 115, 26, 160, 253, 181, 73, 182, 209, 188, 3, 248, 41, 70]);
    assert(r@ =~= metadata_program_key());
    r
}

/// The rent sysvar.
pub fn rent_sysvar_id() -> (r: Pubkey)
    ensures
        r@ == rent_sysvar_key(),
{
    let r = Pubkey::new_from_array([6u8, 167, 213, 23, 25, 44, 92, 81, 33, 140, 201, 76, 61, 74, 241, 127,
        88, 218, 238, 8, 155, 161, 253, 68, 227, 219, 217, 138, 0, 0, 0, 0]);
    assert(r@ =~= rent_sysvar_key());
    r
}

/// The associated token account program.
pub fn associated_token_program_id() -> (r: Pubkey)
    ensures
        r@ == associated_token_program_key(),
{
    let r = Pubkey::new_from_array([140u8, 151, 37, 143, 78, 36, 137, 241, 187, 61, 16, 41, 20, 142, 13, 131,
        11, 90, 19, 153, 218, 255, 16, 132, 4, 142, 123, 216, 219, 233, 248, 89]);
    assert(r@ =~= associated_token_program_key());
    r
}

} // verus!
