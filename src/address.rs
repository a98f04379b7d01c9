use vstd::prelude::*;

verus! {

/// The address that `Pubkey::create_program_address` derives for the seeds
/// `[seed, key, [bump]]` under `program_id`; `None` where the derived point
/// lies on the curve and so is no program address.
pub uninterp spec fn derived_address(seed: Seq<u8>, key: Seq<u8>, bump: u8, program_id: Seq<u8>) -> Option<Seq<u8>>;

/// Whether `bump` is the bump seed that the search of
/// `Pubkey::try_find_program_address` settles on: the largest non-zero bump
/// for which derivation succeeds.
pub open spec fn is_canonical_bump(seed: Seq<u8>, key: Seq<u8>, bump: u8, program_id: Seq<u8>) -> bool {
    &&& 1 <= bump
    &&& derived_address(seed, key, bump, program_id) is Some
    &&& forall|c: u8| c > bump ==> (#[trigger] derived_address(seed, key, c, program_id)) is None
}

/// Relies on solana_program's `Pubkey::create_program_address`: with three
/// seeds of at most 32 bytes each it fails only where the hash of the seeds
/// lies on the curve, and otherwise returns the 32-byte derived address.
#[verifier::external_body]
pub(crate) fn create_program_address(seed: &[u8], key: &[u8; 32], bump: u8, program_id: &[u8; 32]) -> (r: Option<[u8; 32]>)
    requires
        seed@.len() <= 32,
    ensures
        match r {
            Some(a) => derived_address(seed@, key@, bump, program_id@) == Some(a@),
            None => derived_address(seed@, key@, bump, program_id@) is None,
        },
{
    let program_id = solana_program::pubkey::Pubkey::new_from_array(*program_id);
    let seeds: [&[u8]; 3] = [seed, &key[..], &[bump]];
    solana_program::pubkey::Pubkey::create_program_address(&seeds, &program_id).ok().map(|a| a.to_bytes())
}

/// Relies on solana_program's `Pubkey::try_find_program_address`: it tries the
/// bump seeds from 255 down to 1 with `create_program_address` and returns the
/// first address found with its bump, or `None` where all of them fail.
#[verifier::external_body]
pub(crate) fn try_find_program_address(seed: &[u8], key: &[u8; 32], program_id: &[u8; 32]) -> (r: Option<([u8; 32], u8)>)
    requires
        seed@.len() <= 32,
    ensures
        match r {
            Some((a, b)) => is_canonical_bump(seed@, key@, b, program_id@)
                && derived_address(seed@, key@, b, program_id@) == Some(a@),
            None => forall|c: u8| 1 <= c ==> (#[trigger] derived_address(seed@, key@, c, program_id@)) is None,
        },
{
    let program_id = solana_program::pubkey::Pubkey::new_from_array(*program_id);
    let seeds: [&[u8]; 2] = [seed, &key[..]];
    solana_program::pubkey::Pubkey::try_find_program_address(&seeds, &program_id).map(|(a, b)| (a.to_bytes(), b))
}

/// The seed tag that, with a data account's address, derives the address of
/// its metadata account.
pub open spec fn metadata_seed() -> Seq<u8> {
    seq![109u8, 101u8, 116u8, 97u8, 100u8, 97u8, 116u8, 97u8]
}

pub fn metadata_seed_bytes() -> (r: Vec<u8>)
    ensures
        r@ == metadata_seed(),
{
    let r: Vec<u8> = vec![109u8, 101u8, 116u8, 97u8, 100u8, 97u8, 116u8, 97u8];
    assert(r@ =~= metadata_seed());
    r
}

/// The address of the metadata account of the data account `data_key`, with
/// its bump seed; `None` where no bump seed gives a program address.
pub fn find_metadata_address(program_id: &[u8; 32], data_key: &[u8; 32]) -> (r: Option<([u8; 32], u8)>)
    ensures
        match r {
            Some((a, b)) => is_canonical_bump(metadata_seed(), data_key@, b, program_id@)
                && derived_address(metadata_seed(), data_key@, b, program_id@) == Some(a@),
            None => forall|c: u8| 1 <= c ==> (#[trigger] derived_address(metadata_seed(), data_key@, c, program_id@)) is None,
        },
{
    let seed = metadata_seed_bytes();
    try_find_program_address(seed.as_slice(), data_key, program_id)
}

/// Compares two addresses byte by byte.
pub fn same_address(a: &[u8; 32], b: &[u8; 32]) -> (r: bool)
    ensures
        r == (a@ == b@),
{
    let mut i: usize = 0;
    while i < 32
        invariant
            i <= 32,
            forall|j: int| 0 <= j < i ==> a@[j] == b@[j],
        decreases 32 - i,
    {
        if a[i] != b[i] {
            return false;
        }
        i = i + 1;
    }
    assert(a@ =~= b@);
    true
}

} // verus!
