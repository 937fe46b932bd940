//! Account addresses and program-derived addresses.
//!
//! An address is 32 bytes. A program-derived address is computed from an
//! ordered list of byte-string seeds and the address of the owning program;
//! nobody holds a private key for it, so only the program that can show the
//! seeds can act under it.

use anchor_lang::prelude::Pubkey;
use anchor_lang::solana_program::pubkey::PubkeyError;
use vstd::bytes::{spec_u64_to_le_bytes, u64_to_le_bytes};
use vstd::prelude::*;

verus! {

/// The identity of an account: 32 bytes.
#[derive(Clone, Copy, Debug)]
pub struct Address {
    pub bytes: [u8; 32],
}

impl View for Address {
    type V = Seq<u8>;

    open spec fn view(&self) -> Seq<u8> {
        self.bytes@
    }
}

impl PartialEq for Address {
    fn eq(&self, other: &Address) -> (r: bool) {
        let mut i: usize = 0;
        while i < 32
            invariant
                i <= 32,
                forall|k: int| 0 <= k < i ==> self.bytes[k] == other.bytes[k],
            decreases 32 - i,
        {
            if self.bytes[i] != other.bytes[i] {
                return false;
            }
            i += 1;
        }
        assert(self.bytes =~= other.bytes);
        true
    }
}

impl Eq for Address {

}

impl vstd::std_specs::cmp::PartialEqSpecImpl for Address {
    open spec fn obeys_eq_spec() -> bool {
        true
    }

    open spec fn eq_spec(&self, other: &Address) -> bool {
        *self == *other
    }
}

impl Address {
    /// The address made of the given bytes.
    pub fn new(bytes: [u8; 32]) -> (a: Address)
        ensures
            a.bytes == bytes,
    {
        Address { bytes }
    }

    /// The address made of `bytes`, where they are 32.
    pub fn from_slice(bytes: &[u8]) -> (r: Option<Address>)
        ensures
            r is Some <==> bytes@.len() == 32,
            r matches Some(a) ==> a@ == bytes@,
    {
        if bytes.len() != 32 {
            return None;
        }
        let mut held = [0u8; 32];
        let mut i: usize = 0;
        while i < 32
            invariant
                i <= 32,
                bytes@.len() == 32,
                forall|k: int| 0 <= k < i ==> held[k] == bytes@[k],
            decreases 32 - i,
        {
            held[i] = bytes[i];
            i += 1;
        }
        let a = Address { bytes: held };
        assert(a@ =~= bytes@);
        Some(a)
    }

    /// The bytes of the address, in order.
    pub fn to_vec(&self) -> (v: Vec<u8>)
        ensures
            v@ == self@,
    {
        let mut v: Vec<u8> = Vec::new();
        let mut i: usize = 0;
        while i < 32
            invariant
                i <= 32,
                v@.len() == i,
                forall|k: int| 0 <= k < i ==> v@[k] == self.bytes[k],
            decreases 32 - i,
        {
            v.push(self.bytes[i]);
            i += 1;
        }
        assert(v@ =~= self@);
        v
    }
}

/// Two addresses with the same bytes are the same address.
pub proof fn lemma_address_by_view(a: Address, b: Address)
    requires
        a@ == b@,
    ensures
        a == b,
{
    assert(forall|k: int| 0 <= k < 32 ==> a.bytes[k] == a@[k]);
    assert(forall|k: int| 0 <= k < 32 ==> b.bytes[k] == b@[k]);
    assert(a.bytes =~= b.bytes);
}

#[verifier::external_type_specification]
#[verifier::external_body]
pub struct ExPubkeyError(anchor_lang::solana_program::pubkey::PubkeyError);

/// The address that `Pubkey::create_program_address` derives from `seeds`
/// for the program at `program_id`, or `None` where it reports an error
/// (too many seeds, a seed that is too long, or a hash that is a valid
/// public key and so cannot serve as a derived address).
pub uninterp spec fn program_address(seeds: Seq<Seq<u8>>, program_id: Seq<u8>) -> Option<Seq<u8>>;

/// The bytes of each seed, in order.
pub open spec fn seed_bytes(seeds: Seq<Vec<u8>>) -> Seq<Seq<u8>> {
    seeds.map_values(|s: Vec<u8>| s@)
}

/// The seeds followed by a one-byte bump seed.
pub open spec fn with_bump(seeds: Seq<Seq<u8>>, bump: u8) -> Seq<Seq<u8>> {
    seeds.push(seq![bump])
}

/// The largest bump seed among `1..=limit` under which the seeds derive an
/// address, if there is one.
pub open spec fn highest_bump(seeds: Seq<Seq<u8>>, program_id: Seq<u8>, limit: nat) -> Option<u8>
    decreases limit,
{
    if limit == 0 || limit > 255 {
        None
    } else if program_address(with_bump(seeds, limit as u8), program_id) is Some {
        Some(limit as u8)
    } else {
        highest_bump(seeds, program_id, (limit - 1) as nat)
    }
}

/// The canonical derived address of the seeds with its bump seed: the address
/// under the largest bump seed that yields one.
pub open spec fn canonical_address(seeds: Seq<Seq<u8>>, program_id: Seq<u8>) -> Option<(Seq<u8>, u8)> {
    match highest_bump(seeds, program_id, 255) {
        Some(bump) => Some((program_address(with_bump(seeds, bump), program_id)->0, bump)),
        None => None,
    }
}

/// Calls `Pubkey::create_program_address`. Its result depends on the seeds
/// and the program's address alone and is named `program_address`; the
/// function reports an error exactly where that name is `None`.
#[verifier::external_body]
fn create_program_address(seeds: &Vec<Vec<u8>>, program_id: &Address) -> (r: Result<
    Address,
    PubkeyError,
>)
    ensures
        match r {
            Ok(a) => program_address(seed_bytes(seeds@), program_id@) == Some(a@),
            Err(_) => program_address(seed_bytes(seeds@), program_id@) is None,
        },
{
    let parts: Vec<&[u8]> = seeds.iter().map(|s| s.as_slice()).collect();
    match Pubkey::create_program_address(&parts, &Pubkey::new_from_array(program_id.bytes)) {
        Ok(key) => Ok(Address { bytes: key.to_bytes() }),
        Err(e) => Err(e),
    }
}

/// Calls `Pubkey::try_find_program_address`, which tries the bump seeds from
/// 255 down to 1 with `Pubkey::create_program_address` and returns the first
/// address that it yields together with that bump seed, or `None` where no
/// bump seed yields one.
#[verifier::external_body]
fn try_find_program_address(seeds: &Vec<Vec<u8>>, program_id: &Address) -> (r: Option<
    (Address, u8),
>)
    ensures
        match r {
            Some((a, bump)) => canonical_address(seed_bytes(seeds@), program_id@) == Some(
                (a@, bump),
            ),
            None => canonical_address(seed_bytes(seeds@), program_id@) is None,
        },
{
    let parts: Vec<&[u8]> = seeds.iter().map(|s| s.as_slice()).collect();
    match Pubkey::try_find_program_address(&parts, &Pubkey::new_from_array(program_id.bytes)) {
        Some((key, bump)) => Some((Address { bytes: key.to_bytes() }, bump)),
        None => None,
    }
}

/// The canonical address has a bump seed of at least 1, and the seeds with
/// that bump seed derive it.
pub proof fn lemma_canonical_address_derives(seeds: Seq<Seq<u8>>, program_id: Seq<u8>)
    ensures
        canonical_address(seeds, program_id) matches Some((a, bump)) ==> bump >= 1
            && program_address(with_bump(seeds, bump), program_id) == Some(a),
{
    lemma_highest_bump(seeds, program_id, 255);
}

proof fn lemma_highest_bump(seeds: Seq<Seq<u8>>, program_id: Seq<u8>, limit: nat)
    ensures
        highest_bump(seeds, program_id, limit) matches Some(bump) ==> 1 <= bump <= limit
            && program_address(with_bump(seeds, bump), program_id) is Some,
    decreases limit,
{
    if limit == 0 || limit > 255 {
    } else if program_address(with_bump(seeds, limit as u8), program_id) is Some {
    } else {
        lemma_highest_bump(seeds, program_id, (limit - 1) as nat);
    }
}

/// Derives the address of `seeds` under the program at `program_id`.
///
/// Returns `None` where the seeds derive no address.
pub fn derive_address(seeds: &Vec<Vec<u8>>, program_id: &Address) -> (r: Option<Address>)
    ensures
        address_bytes(r) == program_address(seed_bytes(seeds@), program_id@),
{
    match create_program_address(seeds, program_id) {
        Ok(a) => Some(a),
        Err(_) => None,
    }
}

/// Finds the canonical derived address of `seeds` under the program at
/// `program_id`, and the bump seed that completes the seeds.
///
/// Returns `None` where no bump seed yields an address.
pub fn find_address(seeds: &Vec<Vec<u8>>, program_id: &Address) -> (r: Option<(Address, u8)>)
    ensures
        found_bytes(r) == canonical_address(seed_bytes(seeds@), program_id@),
{
    try_find_program_address(seeds, program_id)
}

/// The bytes of a derived address, where there is one.
pub open spec fn address_bytes(derived: Option<Address>) -> Option<Seq<u8>> {
    match derived {
        Some(a) => Some(a@),
        None => None,
    }
}

/// The bytes of a derived address and its bump seed, where there is one.
pub open spec fn found_bytes(found: Option<(Address, u8)>) -> Option<(Seq<u8>, u8)> {
    match found {
        Some((a, bump)) => Some((a@, bump)),
        None => None,
    }
}

/// Whether `derived` is the address `address`.
pub fn is_address(derived: &Option<Address>, address: &Address) -> (r: bool)
    ensures
        r == (address_bytes(*derived) == Some(address@)),
{
    match derived {
        Some(a) => {
            proof {
                if a@ == address@ {
                    lemma_address_by_view(*a, *address);
                }
            }
            *a == *address
        },
        None => false,
    }
}

/// The eight bytes of `x`, least significant first.
pub fn amount_seed(x: u64) -> (v: Vec<u8>)
    ensures
        v@ == spec_u64_to_le_bytes(x),
{
    u64_to_le_bytes(x)
}

} // verus!
