//! The stored form of the registry's record: an 8-byte header that the
//! hosting account model reserves, the owner, the update authority, and the
//! counter in little-endian order. The record has a fixed size.

use crate::address::{bytes_of, Address};
use crate::registry::Configuration;
use vstd::bytes::{
    lemma_auto_spec_u64_to_from_le_bytes, spec_u64_from_le_bytes, spec_u64_to_le_bytes,
    u64_from_le_bytes, u64_to_le_bytes,
};
use vstd::prelude::*;
use vstd::slice::slice_subrange;

verus! {

/// Bytes of the header that precedes a stored record.
pub const HEADER_LEN: usize = 8;

/// Bytes of the registry's account: the header, then the record.
pub const ACCOUNT_LEN: usize = 80;

/// The stored form of `record` behind `header`.
pub open spec fn packed(record: Configuration, header: Seq<u8>) -> Seq<u8> {
    header + record.owner@ + record.update_authority@ + spec_u64_to_le_bytes(record.nft_count)
}

/// The record that `bytes` store behind `header`: the account must be long
/// enough and start with the header. Bytes after the record are not read.
pub open spec fn unpacked(bytes: Seq<u8>, header: Seq<u8>) -> Option<Configuration> {
    if bytes.len() >= ACCOUNT_LEN && bytes.subrange(0, HEADER_LEN as int) == header {
        Some(
            Configuration {
                owner: Address::of(bytes.subrange(8, 40)),
                update_authority: Address::of(bytes.subrange(40, 72)),
                nft_count: spec_u64_from_le_bytes(bytes.subrange(72, 80)),
            },
        )
    } else {
        None
    }
}

/// Lays the record out for storage behind `header`.
pub fn pack(record: &Configuration, header: &[u8; 8]) -> (bytes: Vec<u8>)
    ensures
        bytes@ == packed(*record, header@),
        bytes@.len() == ACCOUNT_LEN,
{
    let mut bytes = bytes_of(header);
    let mut owner = record.owner.to_vec();
    bytes.append(&mut owner);
    let mut update_authority = record.update_authority.to_vec();
    bytes.append(&mut update_authority);
    let mut nft_count = u64_to_le_bytes(record.nft_count);
    bytes.append(&mut nft_count);
    assert(bytes@ =~= packed(*record, header@));
    bytes
}

/// Reads the address stored in the 32 bytes from `start` on.
fn address_at(bytes: &[u8], start: usize) -> (address: Address)
    requires
        start + 32 <= bytes@.len(),
    ensures
        address@ == bytes@.subrange(start as int, start + 32),
{
    let len = bytes.len();
    let mut array = [0u8; 32];
    let mut i: usize = 0;
    while i < 32
        invariant
            i <= 32,
            start + 32 <= len == bytes@.len(),
            forall|j: int| 0 <= j < i ==> array@[j] == bytes@[start + j],
        decreases 32 - i,
    {
        array[i] = bytes[start + i];
        i += 1;
    }
    let address = Address::new(array);
    assert(address@ =~= bytes@.subrange(start as int, start + 32));
    address
}

/// Reads the record that `bytes` store behind `header`, if they store one.
pub fn unpack(bytes: &[u8], header: &[u8; 8]) -> (record: Option<Configuration>)
    ensures
        record == unpacked(bytes@, header@),
{
    if bytes.len() < ACCOUNT_LEN {
        return None;
    }
    let mut i: usize = 0;
    while i < HEADER_LEN
        invariant
            i <= HEADER_LEN,
            bytes@.len() >= ACCOUNT_LEN,
            forall|j: int| 0 <= j < i ==> bytes@[j] == header@[j],
        decreases HEADER_LEN - i,
    {
        if bytes[i] != header[i] {
            assert(bytes@.subrange(0, HEADER_LEN as int)[i as int] != header@[i as int]);
            return None;
        }
        i += 1;
    }
    assert(bytes@.subrange(0, HEADER_LEN as int) =~= header@);
    let owner = address_at(bytes, 8);
    let update_authority = address_at(bytes, 40);
    let nft_count = u64_from_le_bytes(slice_subrange(bytes, 72, 80));
    proof {
        Address::lemma_of_view(owner);
        Address::lemma_of_view(update_authority);
    }
    Some(Configuration { owner, update_authority, nft_count })
}

/// What was stored is read back: unpacking the stored form of a record gives
/// the record, whatever follows it in the account.
pub proof fn lemma_unpack_packed(record: Configuration, header: Seq<u8>, rest: Seq<u8>)
    requires
        header.len() == HEADER_LEN,
    ensures
        unpacked(packed(record, header) + rest, header) == Some(record),
        unpacked(packed(record, header), header) == Some(record),
{
    lemma_auto_spec_u64_to_from_le_bytes();
    let stored = packed(record, header);
    let count = spec_u64_to_le_bytes(record.nft_count);
    assert(stored.len() == ACCOUNT_LEN);
    assert(stored.subrange(0, 8) =~= header);
    assert(stored.subrange(8, 40) =~= record.owner@);
    assert(stored.subrange(40, 72) =~= record.update_authority@);
    assert(stored.subrange(72, 80) =~= count);
    Address::lemma_of_view(record.owner);
    Address::lemma_of_view(record.update_authority);
    let longer = stored + rest;
    assert(longer.subrange(0, 8) =~= header);
    assert(longer.subrange(8, 40) =~= record.owner@);
    assert(longer.subrange(40, 72) =~= record.update_authority@);
    assert(longer.subrange(72, 80) =~= count);
}

/// Two records with the same stored form are the same record.
pub proof fn lemma_packed_determines(first: Configuration, second: Configuration, header: Seq<u8>)
    requires
        header.len() == HEADER_LEN,
        packed(first, header) == packed(second, header),
    ensures
        first == second,
{
    lemma_unpack_packed(first, header, Seq::empty());
    lemma_unpack_packed(second, header, Seq::empty());
}

} // verus!
