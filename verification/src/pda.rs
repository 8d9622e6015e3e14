//! Program derived addresses: derivation from seeds and the search for the
//! canonical bump seed, both made by the runtime library.
use vstd::prelude::*;
use crate::model::Pubkey;

verus! {

/// The most seeds an address may be derived from.
pub const MAX_SEEDS: usize = 16;

/// The longest a single seed may be.
pub const MAX_SEED_LEN: usize = 32;

/// Why an address could not be derived.
#[derive(Clone, Copy, Debug, PartialEq, Eq, Structural)]
pub enum PdaError {
    MaxSeedLengthExceeded,
    InvalidSeeds,
    IllegalOwner,
}

/// Seeds within the runtime's limits on their number and length.
pub open spec fn seeds_fit(seeds: Seq<Seq<u8>>) -> bool {
    &&& seeds.len() <= MAX_SEEDS
    &&& forall|i: int| 0 <= i < seeds.len() ==> #[trigger] seeds[i].len() <= MAX_SEED_LEN
}

/// The address the runtime derives from seeds that fit and a program id:
/// the hash of the seeds, the program id and a marker, unless that hash is a
/// point of the curve (`None`).
pub uninterp spec fn derived_address(seeds: Seq<Seq<u8>>, program_id: Seq<u8>) -> Option<Seq<u8>>;

/// The seeds followed by the one-byte bump seed.
pub open spec fn with_bump(seeds: Seq<Seq<u8>>, bump: u8) -> Seq<Seq<u8>> {
    seeds.push(seq![bump])
}

/// `bump` is the canonical bump of `seeds` under `program_id` and `key` the
/// address it derives: the largest bump from 255 down to 1 whose address is
/// off the curve.
pub open spec fn is_canonical_bump(seeds: Seq<Seq<u8>>, program_id: Seq<u8>, key: Seq<u8>, bump: u8) -> bool {
    &&& 1 <= bump
    &&& seeds_fit(with_bump(seeds, bump))
    &&& derived_address(with_bump(seeds, bump), program_id) == Some(key)
    &&& forall|c: u8| bump < c ==> (#[trigger] derived_address(with_bump(seeds, c), program_id)) is None
}

/// No bump from 255 down to 1 gives an address.
pub open spec fn no_viable_bump(seeds: Seq<Seq<u8>>, program_id: Seq<u8>) -> bool {
    ||| !seeds_fit(with_bump(seeds, 0))
    ||| forall|c: u8| 1 <= c ==> (#[trigger] derived_address(with_bump(seeds, c), program_id)) is None
}

/// The outcome of `create_program_address` on given seeds.
pub open spec fn create_outcome(seeds: Seq<Seq<u8>>, program_id: Seq<u8>) -> Result<Seq<u8>, PdaError> {
    if !seeds_fit(seeds) {
        Err(PdaError::MaxSeedLengthExceeded)
    } else {
        match derived_address(seeds, program_id) {
            Some(k) => Ok(k),
            None => Err(PdaError::InvalidSeeds),
        }
    }
}

/// Calls `Pubkey::create_program_address` of the runtime library. Claimed:
/// too many or too long seeds give `MaxSeedLengthExceeded`; otherwise the
/// result is the derived address, or `InvalidSeeds` where the hash lies on
/// the curve.
#[verifier::external_body]
pub(crate) fn create_program_address(seeds: &Vec<Vec<u8>>, program_id: &Pubkey) -> (r: Result<Pubkey, PdaError>)
    ensures
        match create_outcome(seeds.deep_view(), program_id@) {
            Ok(k) => r matches Ok(p) && p@ == k,
            Err(e) => r == Err::<Pubkey, PdaError>(e),
        },
        seeds_fit(seeds.deep_view()) ==> (r is Ok <==> derived_address(seeds.deep_view(), program_id@) is Some),
{
    let refs: Vec<&[u8]> = seeds.iter().map(|s| s.as_slice()).collect();
    let id = anchor_lang::prelude::Pubkey::new_from_array(program_id.bytes);
    match anchor_lang::prelude::Pubkey::create_program_address(&refs, &id) {
        Ok(k) => Ok(Pubkey { bytes: k.to_bytes() }),
        Err(anchor_lang::solana_program::pubkey::PubkeyError::MaxSeedLengthExceeded) => Err(PdaError::MaxSeedLengthExceeded),
        Err(anchor_lang::solana_program::pubkey::PubkeyError::InvalidSeeds) => Err(PdaError::InvalidSeeds),
        Err(anchor_lang::solana_program::pubkey::PubkeyError::IllegalOwner) => Err(PdaError::IllegalOwner),
    }
}

/// Calls `Pubkey::try_find_program_address` of the runtime library. Claimed:
/// it tries the bump seeds 255, 254, ..., 1 in turn and returns the first
/// address that `create_program_address` derives, with its bump; `None`
/// where the seeds with a bump exceed the limits or no bump gives one.
#[verifier::external_body]
pub(crate) fn try_find_program_address(seeds: &Vec<Vec<u8>>, program_id: &Pubkey) -> (r: Option<(Pubkey, u8)>)
    ensures
        match r {
            Some((k, b)) => is_canonical_bump(seeds.deep_view(), program_id@, k@, b),
            None => no_viable_bump(seeds.deep_view(), program_id@),
        },
        r matches Some((k, b)) ==> derived_address(with_bump(seeds.deep_view(), b), program_id@) == Some(k@),
{
    let refs: Vec<&[u8]> = seeds.iter().map(|s| s.as_slice()).collect();
    let id = anchor_lang::prelude::Pubkey::new_from_array(program_id.bytes);
    anchor_lang::prelude::Pubkey::try_find_program_address(&refs, &id).map(|(k, b)| (Pubkey { bytes: k.to_bytes() }, b))
}

/// The canonical bump of a set of seeds is unique: two bumps both canonical
/// for the same seeds and program are equal and give the same address.
pub proof fn canonical_bump_unique(seeds: Seq<Seq<u8>>, program_id: Seq<u8>, k1: Seq<u8>, b1: u8, k2: Seq<u8>, b2: u8)
    requires
        is_canonical_bump(seeds, program_id, k1, b1),
        is_canonical_bump(seeds, program_id, k2, b2),
    ensures
        b1 == b2,
        k1 == k2,
{
    if b1 < b2 {
        assert(derived_address(with_bump(seeds, b2), program_id) is None);
    } else if b2 < b1 {
        assert(derived_address(with_bump(seeds, b1), program_id) is None);
    }
}

/// Re-deriving an address with its canonical bump gives the address back:
/// what `create_program_address` returns for the seeds and the bump that
/// `try_find_program_address` found.
pub proof fn canonical_bump_recreates(seeds: Seq<Seq<u8>>, program_id: Seq<u8>, key: Seq<u8>, bump: u8)
    requires
        is_canonical_bump(seeds, program_id, key, bump),
    ensures
        create_outcome(with_bump(seeds, bump), program_id) == Ok::<Seq<u8>, PdaError>(key),
{
}

} // verus!
