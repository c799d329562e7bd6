//! Addresses, and their derivation from seeds and an owning module.

use solana_program::pubkey::Pubkey;
use vstd::prelude::*;

verus! {

/// The identity of a storage slot, of a contributor or of a module.
#[derive(Clone, Copy, Debug, PartialEq, Eq)]
pub struct Address {
    pub bytes: [u8; 32],
}

impl View for Address {
    type V = Seq<u8>;

    open spec fn view(&self) -> Seq<u8> {
        self.bytes@
    }
}

impl Address {
    /// Wraps the thirty-two bytes of an address.
    pub fn new(bytes: [u8; 32]) -> (address: Address)
        ensures
            address.bytes == bytes,
    {
        Address { bytes }
    }

    /// Compares two addresses byte by byte.
    pub fn same(&self, other: &Address) -> (equal: bool)
        ensures
            equal == (*self == *other),
    {
        let mut i: usize = 0;
        while i < 32
            invariant
                i <= 32,
                forall|k: int| 0 <= k < i ==> self.bytes[k] == other.bytes[k],
            decreases 32 - i,
        {
            if self.bytes[i] != other.bytes[i] {
                return false;
            }
            i += 1;
        }
        assert(self.bytes =~= other.bytes);
        true
    }

    /// Copies the bytes of the address into a vector.
    pub fn to_vec(&self) -> (out: Vec<u8>)
        ensures
            out@ == self@,
    {
        let mut out: Vec<u8> = Vec::new();
        let mut i: usize = 0;
        while i < 32
            invariant
                i <= 32,
                out@ == self@.subrange(0, i as int),
            decreases 32 - i,
        {
            out.push(self.bytes[i]);
            i += 1;
        }
        out
    }

    /// Reads the address that starts at `start` in `bytes`; `None` where
    /// fewer than thirty-two bytes follow `start`.
    pub fn read(bytes: &[u8], start: usize) -> (address: Option<Address>)
        ensures
            address is Some <==> start + 32 <= bytes@.len(),
            address matches Some(a) ==> a@ == bytes@.subrange(start as int, start + 32),
    {
        if start > bytes.len() || bytes.len() - start < 32 {
            return None;
        }
        let mut out: [u8; 32] = [0u8; 32];
        let mut i: usize = 0;
        while i < 32
            invariant
                i <= 32,
                start + 32 <= bytes.len(),
                forall|k: int| 0 <= k < i ==> out[k] == bytes@[start + k],
            decreases 32 - i,
        {
            out[i] = bytes[start + i];
            i += 1;
        }
        assert(out@ =~= bytes@.subrange(start as int, start + 32));
        Some(Address { bytes: out })
    }
}

/// Two addresses with the same bytes are the same address.
pub proof fn address_by_bytes(a: Address, b: Address)
    requires
        a@ == b@,
    ensures
        a == b,
{
    assert(a.bytes =~= b.bytes);
}

/// The byte sequences that a list of seeds holds.
pub open spec fn seeds_of(seeds: Seq<Vec<u8>>) -> Seq<Seq<u8>> {
    Seq::new(seeds.len(), |i: int| seeds[i]@)
}

/// The address and nonce that the host derives from `seeds` for the module
/// `owner`, or `None` where it derives none.
pub uninterp spec fn program_address(seeds: Seq<Seq<u8>>, owner: Seq<u8>) -> Option<(Seq<u8>, u8)>;

/// Calls `Pubkey::try_find_program_address` of `solana_program`.
///
/// That function searches the nonces from 255 downwards for the first one
/// whose hash with the seeds and the owner is no point of the curve, and
/// returns `None` where there are sixteen seeds or more, a seed is longer than
/// thirty-two bytes, or no nonce serves. The contract claims only that the
/// outcome is a function of the seeds and the owner, under the name
/// [`program_address`].
#[verifier::external_body]
fn try_find_program_address(seeds: &Vec<Vec<u8>>, owner: &Address) -> (found: Option<(Address, u8)>)
    ensures
        match found {
            Some((address, nonce)) => program_address(seeds_of(seeds@), owner@) == Some(
                (address@, nonce),
            ),
            None => program_address(seeds_of(seeds@), owner@) is None,
        },
{
    let parts: Vec<&[u8]> = seeds.iter().map(|seed| seed.as_slice()).collect();
    match Pubkey::try_find_program_address(&parts, &Pubkey::new_from_array(owner.bytes)) {
        Some((key, nonce)) => Some((Address { bytes: key.to_bytes() }, nonce)),
        None => None,
    }
}

/// The address with the given thirty-two bytes.
pub open spec fn address_of(bytes: Seq<u8>) -> Address {
    choose|address: Address| address@ == bytes
}

/// An array whose first `k` bytes are those of `bytes`.
pub open spec fn array_of(bytes: Seq<u8>, k: nat) -> [u8; 32]
    decreases k,
{
    if k == 0 {
        arbitrary()
    } else {
        vstd::array::spec_array_update(array_of(bytes, (k - 1) as nat), k - 1, bytes[k - 1])
    }
}

/// [`array_of`] holds the first `k` bytes of `bytes`.
pub proof fn array_of_prefix(bytes: Seq<u8>, k: nat)
    requires
        k <= 32,
        k <= bytes.len(),
    ensures
        array_of(bytes, k)@.subrange(0, k as int) == bytes.subrange(0, k as int),
    decreases k,
{
    if k > 0 {
        array_of_prefix(bytes, (k - 1) as nat);
        let before = array_of(bytes, (k - 1) as nat);
        assert forall|i: int| 0 <= i < k implies array_of(bytes, k)@[i] == bytes[i] by {
            if i < k - 1 {
                assert(before@.subrange(0, k - 1)[i] == bytes.subrange(0, k - 1)[i]);
            }
        }
    }
    assert(array_of(bytes, k)@.subrange(0, k as int) =~= bytes.subrange(0, k as int));
}

/// Every thirty-two bytes are the bytes of an address, which [`address_of`]
/// gives.
pub proof fn address_of_bytes(bytes: Seq<u8>)
    requires
        bytes.len() == 32,
    ensures
        address_of(bytes)@ == bytes,
{
    array_of_prefix(bytes, 32);
    let witness = Address { bytes: array_of(bytes, 32) };
    assert(witness@.len() == 32);
    assert(witness@.subrange(0, 32) =~= witness@);
    assert(bytes.subrange(0, 32) =~= bytes);
}

/// [`address_of`] gives back the address whose bytes it is handed.
pub proof fn address_of_view(address: Address)
    ensures
        address_of(address@) == address,
{
    address_by_bytes(address_of(address@), address);
}

/// The address and nonce that the host derives from `seeds` for the module
/// `owner`, the address as a value of this library.
pub open spec fn derived(seeds: Seq<Seq<u8>>, owner: Seq<u8>) -> Option<(Address, u8)> {
    match program_address(seeds, owner) {
        Some((bytes, nonce)) => Some((address_of(bytes), nonce)),
        None => None,
    }
}

/// Whether `found` holds exactly the address `claimed`.
pub open spec fn spec_same_as_derived(claimed: &Address, found: &Option<(Address, u8)>) -> bool {
    match *found {
        Some((address, _)) => address == *claimed,
        None => false,
    }
}

/// Whether `claimed` is the address that the host derives from `seeds` for
/// `owner`.
pub open spec fn is_derived(claimed: Address, seeds: Seq<Seq<u8>>, owner: Seq<u8>) -> bool {
    spec_same_as_derived(&claimed, &derived(seeds, owner))
}

/// The nonce that a derivation found; zero where it found none.
pub open spec fn nonce_in(found: Option<(Address, u8)>) -> u8 {
    match found {
        Some((_, nonce)) => nonce,
        None => 0,
    }
}

/// Derives the address of a slot, and the nonce that authorizes sub-calls in
/// its name, from `seeds` and the owning module.
///
/// The outcome is a function of the seeds and the owner: the same seeds and
/// owner always give the same address and nonce.
pub fn derive_address(seeds: &Vec<Vec<u8>>, owner: &Address) -> (found: Option<(Address, u8)>)
    ensures
        found == derived(seeds_of(seeds@), owner@),
{
    let found = try_find_program_address(seeds, owner);
    proof {
        if let Some((address, _)) = found {
            address_of_view(address);
        }
    }
    found
}

/// Compares a claimed address with the outcome of a derivation.
#[verifier::when_used_as_spec(spec_same_as_derived)]
pub fn same_as_derived(claimed: &Address, found: &Option<(Address, u8)>) -> (ok: bool)
    ensures
        ok == spec_same_as_derived(claimed, found),
{
    match found {
        Some((address, _)) => address.same(claimed),
        None => false,
    }
}

/// Recomputes the address for `seeds` and `owner` and compares it with
/// `claimed`.
pub fn verify(claimed: &Address, seeds: &Vec<Vec<u8>>, owner: &Address) -> (ok: bool)
    ensures
        ok == is_derived(*claimed, seeds_of(seeds@), owner@),
{
    let found = derive_address(seeds, owner);
    same_as_derived(claimed, &found)
}

/// Two addresses that are derived from the same seeds for the same owner are
/// one address.
pub proof fn derived_is_unique(a: Address, b: Address, seeds: Seq<Seq<u8>>, owner: Seq<u8>)
    requires
        is_derived(a, seeds, owner),
        is_derived(b, seeds, owner),
    ensures
        a == b,
{
}

} // verus!
