//! Deterministic account-address derivation.
//!
//! The ledger locates a vault's accounts by a pure derivation from seed
//! byte strings and the program's identity. The derivation itself (a
//! hash search) is the outside crate's work; here each account kind gets
//! a verified function that assembles the right seeds.

use vstd::prelude::*;
use vstd::bytes::{spec_u64_to_le_bytes, u64_to_le_bytes};
use crate::account::{id_le_bytes, AccountId};

verus! {

/// What `Pubkey::try_find_program_address` returns for given seeds and
/// program identity: one fixed 32-byte address, or (in a statistically
/// improbable case) nothing. The result depends on the arguments alone.
pub uninterp spec fn derived_address(seeds: Seq<Seq<u8>>, program: Seq<u8>) -> Option<Seq<u8>>;

/// Relies on `Pubkey::try_find_program_address` of the ledger SDK: the
/// returned address is a function of the seeds and the program identity
/// alone, and is 32 bytes long.
#[verifier::external_body]
fn find_address(seeds: &Vec<Vec<u8>>, program: &Vec<u8>) -> (r: Option<Vec<u8>>)
    requires
        program@.len() == 32,
    ensures
        match r {
            Some(b) => b@.len() == 32 && derived_address(seeds.deep_view(), program@) == Some(b@),
            None => derived_address(seeds.deep_view(), program@) is None,
        },
{
    let refs: Vec<&[u8]> = seeds.iter().map(|s| s.as_slice()).collect();
    let mut arr = [0u8; 32];
    arr.copy_from_slice(program.as_slice());
    let program_id = anchor_lang::prelude::Pubkey::new_from_array(arr);
    anchor_lang::prelude::Pubkey::try_find_program_address(&refs, &program_id).map(
        |found: (anchor_lang::prelude::Pubkey, u8)| found.0.to_bytes().to_vec(),
    )
}

/// The seed tag of the vault account, the bytes of `"vault"`.
pub open spec fn spec_vault_seed() -> Seq<u8> {
    seq![0x76u8, 0x61u8, 0x75u8, 0x6cu8, 0x74u8]
}

fn vault_seed() -> (r: Vec<u8>)
    ensures
        r@ == spec_vault_seed(),
{
    let mut r: Vec<u8> = Vec::new();
    r.push(0x76);
    r.push(0x61);
    r.push(0x75);
    r.push(0x6c);
    r.push(0x74);
    proof {
        assert(r@ =~= spec_vault_seed());
    }
    r
}

/// The seed tag of the authority account, the bytes of `"vault_authority"`.
pub open spec fn spec_authority_seed() -> Seq<u8> {
    seq![
        0x76u8,
        0x61u8,
        0x75u8,
        0x6cu8,
        0x74u8,
        0x5fu8,
        0x61u8,
        0x75u8,
        0x74u8,
        0x68u8,
        0x6fu8,
        0x72u8,
        0x69u8,
        0x74u8,
        0x79u8,
    ]
}

fn authority_seed() -> (r: Vec<u8>)
    ensures
        r@ == spec_authority_seed(),
{
    let mut r = vault_seed();
    r.push(0x5f);
    r.push(0x61);
    r.push(0x75);
    r.push(0x74);
    r.push(0x68);
    r.push(0x6f);
    r.push(0x72);
    r.push(0x69);
    r.push(0x74);
    r.push(0x79);
    proof {
        assert(r@ =~= spec_authority_seed());
    }
    r
}

/// The seed tag of the vault's token account, the bytes of `"vault_token"`.
pub open spec fn spec_token_seed() -> Seq<u8> {
    seq![
        0x76u8,
        0x61u8,
        0x75u8,
        0x6cu8,
        0x74u8,
        0x5fu8,
        0x74u8,
        0x6fu8,
        0x6bu8,
        0x65u8,
        0x6eu8,
    ]
}

fn token_seed() -> (r: Vec<u8>)
    ensures
        r@ == spec_token_seed(),
{
    let mut r = vault_seed();
    r.push(0x5f);
    r.push(0x74);
    r.push(0x6f);
    r.push(0x6b);
    r.push(0x65);
    r.push(0x6e);
    proof {
        assert(r@ =~= spec_token_seed());
    }
    r
}

/// The seed tag of a withdrawal request, the bytes of `"withdrawal"`.
pub open spec fn spec_withdrawal_seed() -> Seq<u8> {
    seq![0x77u8, 0x69u8, 0x74u8, 0x68u8, 0x64u8, 0x72u8, 0x61u8, 0x77u8, 0x61u8, 0x6cu8]
}

fn withdrawal_seed() -> (r: Vec<u8>)
    ensures
        r@ == spec_withdrawal_seed(),
{
    let mut r: Vec<u8> = Vec::new();
    r.push(0x77);
    r.push(0x69);
    r.push(0x74);
    r.push(0x68);
    r.push(0x64);
    r.push(0x72);
    r.push(0x61);
    r.push(0x77);
    r.push(0x61);
    r.push(0x6c);
    proof {
        assert(r@ =~= spec_withdrawal_seed());
    }
    r
}

/// The address of `owner`'s vault account under `program`.
pub fn vault_address(owner: &AccountId, program: &AccountId) -> (r: Option<AccountId>)
    ensures
        ({
            let d = derived_address(
                seq![spec_vault_seed(), id_le_bytes(*owner)],
                id_le_bytes(*program),
            );
            match r {
                Some(a) => d == Some(id_le_bytes(a)),
                None => d is None,
            }
        }),
{
    let mut seeds: Vec<Vec<u8>> = Vec::new();
    seeds.push(vault_seed());
    seeds.push(owner.to_le_bytes());
    proof {
        assert(seeds.deep_view() =~~= seq![spec_vault_seed(), id_le_bytes(*owner)]);
    }
    match find_address(&seeds, &program.to_le_bytes()) {
        Some(b) => Some(AccountId::from_le_bytes(b.as_slice())),
        None => None,
    }
}

/// The address of the authority record of the vault at `vault_key`.
pub fn authority_address(vault_key: &AccountId, program: &AccountId) -> (r: Option<AccountId>)
    ensures
        ({
            let d = derived_address(
                seq![spec_authority_seed(), id_le_bytes(*vault_key)],
                id_le_bytes(*program),
            );
            match r {
                Some(a) => d == Some(id_le_bytes(a)),
                None => d is None,
            }
        }),
{
    let mut seeds: Vec<Vec<u8>> = Vec::new();
    seeds.push(authority_seed());
    seeds.push(vault_key.to_le_bytes());
    proof {
        assert(seeds.deep_view() =~~= seq![spec_authority_seed(), id_le_bytes(*vault_key)]);
    }
    match find_address(&seeds, &program.to_le_bytes()) {
        Some(b) => Some(AccountId::from_le_bytes(b.as_slice())),
        None => None,
    }
}

/// The address of `owner`'s vault token account under `program`.
pub fn token_address(owner: &AccountId, program: &AccountId) -> (r: Option<AccountId>)
    ensures
        ({
            let d = derived_address(
                seq![spec_token_seed(), id_le_bytes(*owner)],
                id_le_bytes(*program),
            );
            match r {
                Some(a) => d == Some(id_le_bytes(a)),
                None => d is None,
            }
        }),
{
    let mut seeds: Vec<Vec<u8>> = Vec::new();
    seeds.push(token_seed());
    seeds.push(owner.to_le_bytes());
    proof {
        assert(seeds.deep_view() =~~= seq![spec_token_seed(), id_le_bytes(*owner)]);
    }
    match find_address(&seeds, &program.to_le_bytes()) {
        Some(b) => Some(AccountId::from_le_bytes(b.as_slice())),
        None => None,
    }
}

/// The address of withdrawal request `request_id` against the vault at
/// `vault_key`; the request number is encoded as its eight
/// little-endian bytes.
pub fn withdrawal_address(vault_key: &AccountId, request_id: u64, program: &AccountId) -> (r:
    Option<AccountId>)
    ensures
        ({
            let d = derived_address(
                seq![
                    spec_withdrawal_seed(),
                    id_le_bytes(*vault_key),
                    spec_u64_to_le_bytes(request_id),
                ],
                id_le_bytes(*program),
            );
            match r {
                Some(a) => d == Some(id_le_bytes(a)),
                None => d is None,
            }
        }),
{
    let mut seeds: Vec<Vec<u8>> = Vec::new();
    seeds.push(withdrawal_seed());
    seeds.push(vault_key.to_le_bytes());
    seeds.push(u64_to_le_bytes(request_id));
    proof {
        assert(seeds.deep_view() =~~= seq![
            spec_withdrawal_seed(),
            id_le_bytes(*vault_key),
            spec_u64_to_le_bytes(request_id),
        ]);
    }
    match find_address(&seeds, &program.to_le_bytes()) {
        Some(b) => Some(AccountId::from_le_bytes(b.as_slice())),
        None => None,
    }
}

} // verus!
