use vstd::prelude::*;

verus! {

/// The id of the program that controls every vault account.
pub const VAULT_PROGRAM_ID: [u8; 32] = [
    176, 133, 86, 227, 239, 17, 20, 2, 47, 28, 234, 63, 177, 250, 247, 164,
    246, 105, 27, 55, 191, 211, 117, 113, 123, 209, 182, 222, 168, 109, 45, 131,
];

/// The domain tag that seeds every vault address: the ASCII bytes of `vault`.
pub const VAULT_SEED: [u8; 5] = [118, 97, 117, 108, 116];

/// The program-derived address and bump seed found for the seeds
/// `[tag, owner]` under `program_id`, or `None` where no bump seed works.
pub uninterp spec fn program_address_of(tag: Seq<u8>, owner: Seq<u8>, program_id: Seq<u8>) -> Option<(Seq<u8>, u8)>;

/// The address and bump seed of the vault that belongs to `owner`.
pub open spec fn vault_address(owner: Seq<u8>) -> Option<(Seq<u8>, u8)> {
    program_address_of(VAULT_SEED@, owner, VAULT_PROGRAM_ID@)
}

/// Whether `vault` is the address derived for `owner`.
pub open spec fn is_vault_of(owner: Seq<u8>, vault: Seq<u8>) -> bool {
    match vault_address(owner) {
        Some((a, _)) => a == vault,
        None => false,
    }
}

/// The view of an exec-level derivation result.
pub open spec fn address_view(r: Option<([u8; 32], u8)>) -> Option<(Seq<u8>, u8)> {
    match r {
        Some((a, b)) => Some((a@, b)),
        None => None,
    }
}

/// Relies on `Pubkey::try_find_program_address` of solana-pubkey: it searches
/// the bump seeds from 255 down and returns the first address off the curve,
/// a function of the seeds and the program id alone; `None` where none is found.
#[verifier::external_body]
fn try_find_program_address(tag: &[u8], owner: &[u8; 32], program_id: &[u8; 32]) -> (r: Option<([u8; 32], u8)>)
    ensures
        address_view(r) == program_address_of(tag@, owner@, program_id@),
{
    let program_id = anchor_lang::solana_program::pubkey::Pubkey::new_from_array(*program_id);
    let seeds: [&[u8]; 2] = [tag, &owner[..]];
    anchor_lang::solana_program::pubkey::Pubkey::try_find_program_address(&seeds, &program_id)
        .map(|(a, bump)| (a.to_bytes(), bump))
}

/// Derives the vault address of `owner` and its bump seed.
pub fn derive_vault(owner: &[u8; 32]) -> (r: Option<([u8; 32], u8)>)
    ensures
        address_view(r) == vault_address(owner@),
{
    let tag = VAULT_SEED;
    try_find_program_address(&tag, owner, &VAULT_PROGRAM_ID)
}

/// Whether two keys hold the same bytes.
pub fn same_key(a: &[u8; 32], b: &[u8; 32]) -> (r: bool)
    ensures
        r == (a@ == b@),
{
    let mut i: usize = 0;
    while i < 32
        invariant
            i <= 32,
            forall|j: int| 0 <= j < i ==> a@[j] == b@[j],
        decreases 32 - i,
    {
        if a[i] != b[i] {
            return false;
        }
        i = i + 1;
    }
    assert(a@ =~= b@);
    true
}

/// Whether `vault` is the address derived for `owner`.
pub fn check_vault_address(owner: &[u8; 32], vault: &[u8; 32]) -> (r: bool)
    ensures
        r == is_vault_of(owner@, vault@),
{
    match derive_vault(owner) {
        Some((a, _)) => same_key(&a, vault),
        None => false,
    }
}

} // verus!
