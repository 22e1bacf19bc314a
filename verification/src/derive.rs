//! The three addresses that the program derives: the registry's own, and the
//! metadata and master-edition accounts of a token.

use crate::address::{
    bytes_of, derived_view, lemma_derived_view_determines, program_derived_address, seed_bytes,
    try_find_program_address, Address,
};
use crate::constants::{EDITION_SEED, METADATA_SEED, NFT_MINT_PDA_SEED};
use crate::protocol::{token_metadata_program, token_metadata_program_id};
use vstd::prelude::*;

verus! {

/// The seeds of the registry's address: the fixed seed alone.
pub open spec fn registry_seeds() -> Seq<Seq<u8>> {
    seq![NFT_MINT_PDA_SEED@]
}

/// The seeds of the metadata account of the token `mint`: the protocol tag,
/// the token-metadata program's address, the token's address.
pub open spec fn metadata_seeds(mint: Seq<u8>) -> Seq<Seq<u8>> {
    seq![METADATA_SEED@, token_metadata_program(), mint]
}

/// The seeds of the master-edition account of the token `mint`: those of its
/// metadata account, then the edition tag.
pub open spec fn master_edition_seeds(mint: Seq<u8>) -> Seq<Seq<u8>> {
    seq![METADATA_SEED@, token_metadata_program(), mint, EDITION_SEED@]
}

/// The registry's address under the program `program_id`, with its nonce.
pub open spec fn registry_address_of(program_id: Seq<u8>) -> Option<(Seq<u8>, u8)> {
    program_derived_address(registry_seeds(), program_id)
}

/// The address of the metadata account of the token `mint`, with its nonce.
pub open spec fn metadata_address_of(mint: Seq<u8>) -> Option<(Seq<u8>, u8)> {
    program_derived_address(metadata_seeds(mint), token_metadata_program())
}

/// The address of the master-edition account of the token `mint`, with its
/// nonce.
pub open spec fn master_edition_address_of(mint: Seq<u8>) -> Option<(Seq<u8>, u8)> {
    program_derived_address(master_edition_seeds(mint), token_metadata_program())
}

/// Derives the address of the registry of the program `program_id`. There is
/// one registry per program: the address depends on nothing else.
pub fn registry_address(program_id: &Address) -> (found: Option<(Address, u8)>)
    ensures
        derived_view(found) == registry_address_of(program_id@),
{
    let mut seeds: Vec<Vec<u8>> = Vec::new();
    seeds.push(bytes_of(&NFT_MINT_PDA_SEED));
    assert(seed_bytes(seeds@) =~= registry_seeds());
    try_find_program_address(&seeds, program_id)
}

/// The nonce of the registry's address under `program_id`, where `key` is
/// that address; `None` where it is another address.
pub open spec fn registry_nonce_of(program_id: Seq<u8>, key: Seq<u8>) -> Option<u8> {
    match registry_address_of(program_id) {
        Some(found) => if found.0 == key {
            Some(found.1)
        } else {
            None
        },
        None => None,
    }
}

/// Looks the registry up by its derived address: returns the nonce of the
/// registry's address where `key` is that address, and `None` where the
/// account at `key` is not the registry of the program `program_id`.
pub fn registry_nonce(program_id: &Address, key: &Address) -> (nonce: Option<u8>)
    ensures
        nonce == registry_nonce_of(program_id@, key@),
{
    match registry_address(program_id) {
        Some(found) => if found.0 == *key {
            Some(found.1)
        } else {
            None
        },
        None => None,
    }
}

/// Derives the address of the metadata account of the token `mint`.
pub fn metadata_address(mint: &Address) -> (found: Option<(Address, u8)>)
    ensures
        derived_view(found) == metadata_address_of(mint@),
{
    let program = token_metadata_program_id();
    let mut seeds: Vec<Vec<u8>> = Vec::new();
    seeds.push(bytes_of(&METADATA_SEED));
    seeds.push(program.to_vec());
    seeds.push(mint.to_vec());
    assert(seed_bytes(seeds@) =~= metadata_seeds(mint@));
    try_find_program_address(&seeds, &program)
}

/// Derives the address of the master-edition account of the token `mint`.
pub fn master_edition_address(mint: &Address) -> (found: Option<(Address, u8)>)
    ensures
        derived_view(found) == master_edition_address_of(mint@),
{
    let program = token_metadata_program_id();
    let mut seeds: Vec<Vec<u8>> = Vec::new();
    seeds.push(bytes_of(&METADATA_SEED));
    seeds.push(program.to_vec());
    seeds.push(mint.to_vec());
    seeds.push(bytes_of(&EDITION_SEED));
    assert(seed_bytes(seeds@) =~= master_edition_seeds(mint@));
    try_find_program_address(&seeds, &program)
}

/// Deriving the metadata address of one token twice gives one answer: any two
/// results of `metadata_address` for tokens with the same bytes are equal.
pub proof fn lemma_metadata_address_deterministic(
    first_mint: Address,
    first: Option<(Address, u8)>,
    second_mint: Address,
    second: Option<(Address, u8)>,
)
    requires
        first_mint@ == second_mint@,
        derived_view(first) == metadata_address_of(first_mint@),
        derived_view(second) == metadata_address_of(second_mint@),
    ensures
        first == second,
{
    lemma_derived_view_determines(first, second);
}

/// Deriving the master-edition address of one token twice gives one answer:
/// any two results of `master_edition_address` for tokens with the same bytes
/// are equal.
pub proof fn lemma_master_edition_address_deterministic(
    first_mint: Address,
    first: Option<(Address, u8)>,
    second_mint: Address,
    second: Option<(Address, u8)>,
)
    requires
        first_mint@ == second_mint@,
        derived_view(first) == master_edition_address_of(first_mint@),
        derived_view(second) == master_edition_address_of(second_mint@),
    ensures
        first == second,
{
    lemma_derived_view_determines(first, second);
}

/// Deriving the registry's address of one program twice gives one answer.
pub proof fn lemma_registry_address_deterministic(
    first_program: Address,
    first: Option<(Address, u8)>,
    second_program: Address,
    second: Option<(Address, u8)>,
)
    requires
        first_program@ == second_program@,
        derived_view(first) == registry_address_of(first_program@),
        derived_view(second) == registry_address_of(second_program@),
    ensures
        first == second,
{
    lemma_derived_view_determines(first, second);
}

} // verus!
