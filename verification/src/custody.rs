use vstd::prelude::*;
use vstd::slice::slice_to_vec;
use crate::pubkey::Pubkey;
use crate::transfer::{Seed, Signer, Transfer, GLOBAL_STATE_SEED, SOL_VAULT_SEED};

verus! {

/// The program's own identity, under which its addresses are derived.
pub const PROGRAM_ID: [u8; 32] = [
    212, 192, 30, 134, 75, 205, 49, 105, 231, 239, 170, 157, 253, 228, 82, 202, 51, 234, 236, 206,
    157, 0, 216, 90, 36, 149, 108, 147, 164, 2, 8, 165,
];

/// The program's own identity as a key.
pub fn id() -> (key: Pubkey)
    ensures
        key.bytes == PROGRAM_ID,
{
    Pubkey::new(PROGRAM_ID)
}

/// The address that a program derives from a list of seeds, as the bytes of each seed and
/// of the program's identity determine it; `None` where the seeds give no address. No key
/// can sign for such an address: only the program can, by naming the seeds.
pub uninterp spec fn program_address(seeds: Seq<Seq<u8>>, program_id: Seq<u8>) -> Option<
    Seq<u8>,
>;

/// `Pubkey::create_program_address` of `solana_program`: it hashes the seeds, the program's
/// identity and a fixed marker, and refuses seeds that are too many or too long and a hash
/// that is a point of the curve. The result depends on the bytes handed in and on nothing
/// else; a refusal of either kind comes back as `None`.
#[verifier::external_body]
fn create_program_address(seeds: &Vec<Vec<u8>>, program_id: &Pubkey) -> (r: Option<Pubkey>)
    ensures
        match r {
            Some(key) => program_address(seeds.deep_view(), program_id@) == Some(key@),
            None => program_address(seeds.deep_view(), program_id@) is None,
        },
{
    let parts: Vec<&[u8]> = seeds.iter().map(|seed| seed.as_slice()).collect();
    let program = anchor_lang::solana_program::pubkey::Pubkey::new_from_array(program_id.bytes);
    match anchor_lang::solana_program::pubkey::Pubkey::create_program_address(&parts, &program) {
        Ok(key) => Some(Pubkey { bytes: key.to_bytes() }),
        Err(_) => None,
    }
}

/// The address for which the program signs with `seed` and `bump`.
pub open spec fn derived_address(seed: Seed, bump: u8, program_id: Pubkey) -> Option<Seq<u8>> {
    program_address(seq![seed.label(), seq![bump]], program_id@)
}

/// The address under which the store keeps the record of `owner` with `treasury`.
pub open spec fn user_state_address(
    treasury: Pubkey,
    owner: Pubkey,
    bump: u8,
    program_id: Pubkey,
) -> Option<Seq<u8>> {
    program_address(seq![treasury@, owner@, seq![bump]], program_id@)
}

/// The bytes of a seed's label: the first of the two seeds with which the program signs,
/// the bump being the second.
pub fn label_bytes(seed: Seed) -> (label: Vec<u8>)
    ensures
        label@ == seed.label(),
{
    match seed {
        Seed::GlobalState => slice_to_vec(&GLOBAL_STATE_SEED),
        Seed::SolVault => slice_to_vec(&SOL_VAULT_SEED),
    }
}

/// Derives the address for which the program signs with `seed` and `bump`.
pub fn derive_authority(seed: Seed, bump: u8, program_id: &Pubkey) -> (r: Option<Pubkey>)
    ensures
        match r {
            Some(key) => derived_address(seed, bump, *program_id) == Some(key@),
            None => derived_address(seed, bump, *program_id) is None,
        },
{
    let mut seeds: Vec<Vec<u8>> = Vec::new();
    seeds.push(label_bytes(seed));
    seeds.push(vec![bump]);
    assert(seeds.deep_view() =~~= seq![seed.label(), seq![bump]]);
    create_program_address(&seeds, program_id)
}

/// Derives the address of the record of `owner` with `treasury`.
pub fn derive_user_state(treasury: &Pubkey, owner: &Pubkey, bump: u8, program_id: &Pubkey) -> (r:
    Option<Pubkey>)
    ensures
        match r {
            Some(key) => user_state_address(*treasury, *owner, bump, *program_id) == Some(key@),
            None => user_state_address(*treasury, *owner, bump, *program_id) is None,
        },
{
    let mut seeds: Vec<Vec<u8>> = Vec::new();
    seeds.push(slice_to_vec(&treasury.bytes));
    seeds.push(slice_to_vec(&owner.bytes));
    seeds.push(vec![bump]);
    assert(seeds.deep_view() =~~= seq![treasury@, owner@, seq![bump]]);
    create_program_address(&seeds, program_id)
}

/// Whether the program may sign for `claimed` with `seed` and `bump`: it may for the
/// address that these two derive under the program's identity, and for no other.
pub open spec fn proven(claimed: Pubkey, seed: Seed, bump: u8, program_id: Pubkey) -> bool {
    derived_address(seed, bump, program_id) == Some(claimed@)
}

/// Whether the authority of `transfer` may spend: a wallet that has signed may, and the
/// program may for the address that its seed and bump derive.
pub open spec fn authorized(transfer: Transfer, program_id: Pubkey) -> bool {
    match transfer.signer {
        Signer::Wallet => true,
        Signer::Program { seed, bump } => proven(transfer.authority, seed, bump, program_id),
    }
}

/// Whether `derived`, the address that a seed and a bump were found to give, is the
/// address `claimed`.
pub fn is_derived(claimed: &Pubkey, derived: Option<Pubkey>) -> (ok: bool)
    ensures
        ok == (derived == Some(*claimed)),
{
    match derived {
        Some(key) => key == *claimed,
        None => false,
    }
}

/// What `derive_authority` has returned is the address `claimed` exactly when the
/// program may sign for `claimed`.
pub(crate) proof fn lemma_derived_is_proven(
    claimed: Pubkey,
    derived: Option<Pubkey>,
    seed: Seed,
    bump: u8,
    program_id: Pubkey,
)
    requires
        match derived {
            Some(key) => derived_address(seed, bump, program_id) == Some(key@),
            None => derived_address(seed, bump, program_id) is None,
        },
    ensures
        (derived == Some(claimed)) == proven(claimed, seed, bump, program_id),
{
    if let Some(key) = derived {
        if key@ == claimed@ {
            Pubkey::lemma_view_injective(key, claimed);
        }
    }
}

} // verus!
