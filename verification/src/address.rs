//! Account addresses and the derivation of program-owned addresses.

use anchor_lang::prelude::Pubkey;
use vstd::prelude::*;

verus! {

/// A 32-byte account address. Its view is the sequence of its bytes.
#[derive(Clone, Copy, Debug)]
pub struct Address {
    pub bytes: [u8; 32],
}

impl View for Address {
    type V = Seq<u8>;

    open spec fn view(&self) -> Seq<u8> {
        self.bytes@
    }
}

impl PartialEq for Address {
    fn eq(&self, other: &Address) -> (same: bool) {
        let mut i: usize = 0;
        while i < 32
            invariant
                i <= 32,
                forall|j: int| 0 <= j < i ==> self.bytes@[j] == other.bytes@[j],
            decreases 32 - i,
        {
            if self.bytes[i] != other.bytes[i] {
                return false;
            }
            i += 1;
        }
        assert(self.bytes@ =~= other.bytes@);
        true
    }
}

impl Eq for Address {}

impl vstd::std_specs::cmp::PartialEqSpecImpl for Address {
    open spec fn obeys_eq_spec() -> bool {
        true
    }

    open spec fn eq_spec(&self, other: &Address) -> bool {
        self@ == other@
    }
}

impl Default for Address {
    /// The address of 32 zero bytes.
    fn default() -> (address: Address)
        ensures
            address@ == Seq::new(32, |i: int| 0u8),
    {
        let address = Address { bytes: [0u8; 32] };
        assert(address@ =~= Seq::new(32, |i: int| 0u8));
        address
    }
}

impl Address {
    /// Makes an address of its 32 bytes.
    pub fn new(bytes: [u8; 32]) -> (address: Address)
        ensures
            address.bytes == bytes,
            address@ == bytes@,
    {
        Address { bytes }
    }

    /// Copies the bytes of the address into a vector.
    pub fn to_vec(&self) -> (v: Vec<u8>)
        ensures
            v@ == self@,
    {
        bytes_of(&self.bytes)
    }

    /// The address with these bytes.
    pub open spec fn of(bytes: Seq<u8>) -> Address {
        choose|address: Address| address@ == bytes
    }

    /// An address is the address with its bytes.
    pub proof fn lemma_of_view(a: Address)
        ensures
            Address::of(a@) == a,
    {
        Address::lemma_view_determines(Address::of(a@), a);
    }

    /// Two addresses with the same bytes are the same address.
    pub proof fn lemma_view_determines(a: Address, b: Address)
        requires
            a@ == b@,
        ensures
            a == b,
    {
        assert(a.bytes =~= b.bytes);
    }
}

/// The bytes of each seed of a list.
pub open spec fn seed_bytes(seeds: Seq<Vec<u8>>) -> Seq<Seq<u8>> {
    seeds.map_values(|seed: Vec<u8>| seed@)
}

/// A derived address and its nonce, the address by its bytes.
pub open spec fn derived_view(found: Option<(Address, u8)>) -> Option<(Seq<u8>, u8)> {
    match found {
        Some((address, nonce)) => Some((address@, nonce)),
        None => None,
    }
}

/// Two derivations with the same view are the same.
pub proof fn lemma_derived_view_determines(a: Option<(Address, u8)>, b: Option<(Address, u8)>)
    requires
        derived_view(a) == derived_view(b),
    ensures
        a == b,
{
    if let Some(first) = a {
        let second = b->0;
        Address::lemma_view_determines(first.0, second.0);
    }
}

/// Copies an array of bytes into a vector.
pub fn bytes_of<const N: usize>(bytes: &[u8; N]) -> (v: Vec<u8>)
    ensures
        v@ == bytes@,
{
    let mut v: Vec<u8> = Vec::new();
    let mut i: usize = 0;
    while i < N
        invariant
            i <= N,
            v@ == bytes@.subrange(0, i as int),
        decreases N - i,
    {
        v.push(bytes[i]);
        i += 1;
    }
    v
}

/// What `Pubkey::try_find_program_address` returns for `seeds` under the
/// program `program_id`. The search runs through the nonces from 255 down to
/// 1 and stops at the first for which the hash of the seeds, the nonce and
/// the program's address is no point of the signature curve: that hash is the
/// address. The answer is `None` where no nonce gives one, where there are 16
/// seeds or more, and where a seed is longer than 32 bytes.
pub uninterp spec fn program_derived_address(seeds: Seq<Seq<u8>>, program_id: Seq<u8>) -> Option<
    (Seq<u8>, u8),
>;

/// Calls `Pubkey::try_find_program_address` of `anchor_lang`. The contract
/// claims only that the outcome is a function of the seeds' bytes and of the
/// program's address; nothing is claimed of its value.
#[verifier::external_body]
pub(crate) fn try_find_program_address(seeds: &Vec<Vec<u8>>, program_id: &Address) -> (found: Option<
    (Address, u8),
>)
    ensures
        derived_view(found) == program_derived_address(seed_bytes(seeds@), program_id@),
{
    let mut slices: Vec<&[u8]> = Vec::new();
    for seed in seeds {
        slices.push(seed.as_slice());
    }
    let program = Pubkey::new_from_array(program_id.bytes);
    match Pubkey::try_find_program_address(&slices, &program) {
        Some((key, bump)) => Some((Address { bytes: key.to_bytes() }, bump)),
        None => None,
    }
}

} // verus!
