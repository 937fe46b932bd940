//! The record of one open trade.

use crate::address::{amount_seed, lemma_address_by_view, seed_bytes, with_bump, Address};
use vstd::bytes::{
    lemma_auto_spec_u64_to_from_le_bytes, spec_u64_from_le_bytes, spec_u64_to_le_bytes,
    u64_from_le_bytes,
};
use vstd::prelude::*;
use vstd::slice::slice_subrange;

verus! {

/// One open trade: what the maker locked, what the taker must pay, and where
/// the payment goes.
///
/// A record never changes once it is written; it is only created and
/// destroyed.
#[derive(Clone, Copy, Debug, PartialEq, Eq)]
pub struct Escrow {
    /// The bump seed that completes the seeds of the record's address.
    pub bump: u8,
    /// True once the record has been written.
    pub is_initialized: bool,
    /// The account that made the order and receives the taker's payment.
    pub maker: Address,
    /// The amount the maker locked when making the order. It is kept to be
    /// shown and confirmed, and is not what settlement pays out.
    pub maker_amount: u64,
    /// The asset account of the maker that receives the taker's payment.
    pub maker_receive_token_account: Address,
    /// The amount the taker must pay to take the order.
    pub taker_amount: u64,
    /// The custody account that holds the locked asset.
    pub token_account: Address,
}

impl Escrow {
    /// Number of bytes that a stored record takes.
    pub const LEN: usize = 1 + 1 + 32 + 8 + 32 + 8 + 32;
}

/// The seeds of the address of the record for a custody account, a maker and
/// a price, without the bump seed.
pub open spec fn order_seeds(token_account: Address, maker: Address, taker_amount: u64) -> Seq<
    Seq<u8>,
> {
    seq![token_account@, maker@, spec_u64_to_le_bytes(taker_amount)]
}

/// The seeds that derive the address of `record`, bump seed included. They
/// are what shows that an operation acts for the record.
pub open spec fn record_seeds(record: Escrow) -> Seq<Seq<u8>> {
    with_bump(order_seeds(record.token_account, record.maker, record.taker_amount), record.bump)
}

/// The seeds of the address of the record for a custody account, a maker and
/// a price, without the bump seed.
pub fn order_seed_list(token_account: &Address, maker: &Address, taker_amount: u64) -> (seeds: Vec<
    Vec<u8>,
>)
    ensures
        seed_bytes(seeds@) == order_seeds(*token_account, *maker, taker_amount),
{
    let mut seeds: Vec<Vec<u8>> = Vec::new();
    seeds.push(token_account.to_vec());
    seeds.push(maker.to_vec());
    seeds.push(amount_seed(taker_amount));
    assert(seed_bytes(seeds@) =~= order_seeds(*token_account, *maker, taker_amount));
    seeds
}

/// The seeds of the address of the record for a custody account, a maker and
/// a price, completed by `bump`.
pub fn bumped_seed_list(token_account: &Address, maker: &Address, taker_amount: u64, bump: u8) -> (seeds:
    Vec<Vec<u8>>)
    ensures
        seed_bytes(seeds@) == with_bump(order_seeds(*token_account, *maker, taker_amount), bump),
{
    let mut seeds = order_seed_list(token_account, maker, taker_amount);
    let mut last: Vec<u8> = Vec::new();
    last.push(bump);
    assert(last@ =~= seq![bump]);
    seeds.push(last);
    assert(seed_bytes(seeds@) =~= with_bump(
        order_seeds(*token_account, *maker, taker_amount),
        bump,
    ));
    seeds
}

/// The byte that stores a flag: 1 for true, 0 for false.
pub open spec fn flag_byte(flag: bool) -> u8 {
    if flag {
        1
    } else {
        0
    }
}

/// The bytes that store `record`: its fields in order, each amount as eight
/// bytes with the least significant first.
pub open spec fn encoded(record: Escrow) -> Seq<u8> {
    seq![record.bump, flag_byte(record.is_initialized)] + record.maker@ + spec_u64_to_le_bytes(
        record.maker_amount,
    ) + record.maker_receive_token_account@ + spec_u64_to_le_bytes(record.taker_amount)
        + record.token_account@
}

/// Whether `bytes` begin with a stored record: they are long enough, and
/// the byte of the flag is 0 or 1.
pub open spec fn decodable(bytes: Seq<u8>) -> bool {
    bytes.len() >= Escrow::LEN && bytes[1] <= 1
}

/// Where each field stands among the bytes that store a record.
pub proof fn lemma_encoded_layout(record: Escrow)
    ensures
        encoded(record).len() == Escrow::LEN,
        encoded(record)[0] == record.bump,
        encoded(record)[1] == flag_byte(record.is_initialized),
        encoded(record).subrange(2, 34) == record.maker@,
        encoded(record).subrange(34, 42) == spec_u64_to_le_bytes(record.maker_amount),
        encoded(record).subrange(42, 74) == record.maker_receive_token_account@,
        encoded(record).subrange(74, 82) == spec_u64_to_le_bytes(record.taker_amount),
        encoded(record).subrange(82, 114) == record.token_account@,
{
    lemma_auto_spec_u64_to_from_le_bytes();
    let s = encoded(record);
    assert(record.maker@.len() == 32);
    assert(record.maker_receive_token_account@.len() == 32);
    assert(record.token_account@.len() == 32);
    assert(s.subrange(2, 34) =~= record.maker@);
    assert(s.subrange(34, 42) =~= spec_u64_to_le_bytes(record.maker_amount));
    assert(s.subrange(42, 74) =~= record.maker_receive_token_account@);
    assert(s.subrange(74, 82) =~= spec_u64_to_le_bytes(record.taker_amount));
    assert(s.subrange(82, 114) =~= record.token_account@);
}

/// Two records that are stored as the same bytes are the same record.
pub proof fn law_encoding_is_injective(a: Escrow, b: Escrow)
    requires
        encoded(a) == encoded(b),
    ensures
        a == b,
{
    lemma_encoded_layout(a);
    lemma_encoded_layout(b);
    lemma_auto_spec_u64_to_from_le_bytes();
    lemma_address_by_view(a.maker, b.maker);
    lemma_address_by_view(a.maker_receive_token_account, b.maker_receive_token_account);
    lemma_address_by_view(a.token_account, b.token_account);
    assert(spec_u64_from_le_bytes(spec_u64_to_le_bytes(a.maker_amount)) == a.maker_amount);
    assert(spec_u64_from_le_bytes(spec_u64_to_le_bytes(b.maker_amount)) == b.maker_amount);
    assert(spec_u64_from_le_bytes(spec_u64_to_le_bytes(a.taker_amount)) == a.taker_amount);
    assert(spec_u64_from_le_bytes(spec_u64_to_le_bytes(b.taker_amount)) == b.taker_amount);
}

/// What was stored can be read back: the bytes of a record are decodable.
pub proof fn law_encoded_is_decodable(record: Escrow)
    ensures
        decodable(encoded(record)),
        encoded(record).subrange(0, Escrow::LEN as int) == encoded(record),
{
    lemma_encoded_layout(record);
    assert(encoded(record).subrange(0, Escrow::LEN as int) =~= encoded(record));
}

fn append(bytes: &mut Vec<u8>, more: &Vec<u8>)
    ensures
        final(bytes)@ == old(bytes)@ + more@,
{
    let ghost before = bytes@;
    let mut i: usize = 0;
    while i < more.len()
        invariant
            i <= more@.len(),
            bytes@ == before + more@.subrange(0, i as int),
        decreases more@.len() - i,
    {
        bytes.push(more[i]);
        assert(bytes@ =~= before + more@.subrange(0, i + 1));
        i += 1;
    }
    assert(bytes@ =~= before + more@);
}

impl Escrow {
    /// The bytes that store the record.
    pub fn to_bytes(&self) -> (bytes: Vec<u8>)
        ensures
            bytes@ == encoded(*self),
            bytes@.len() == Escrow::LEN,
    {
        let mut bytes: Vec<u8> = Vec::new();
        bytes.push(self.bump);
        bytes.push(if self.is_initialized { 1 } else { 0 });
        assert(bytes@ =~= seq![self.bump, flag_byte(self.is_initialized)]);
        append(&mut bytes, &self.maker.to_vec());
        append(&mut bytes, &amount_seed(self.maker_amount));
        append(&mut bytes, &self.maker_receive_token_account.to_vec());
        append(&mut bytes, &amount_seed(self.taker_amount));
        append(&mut bytes, &self.token_account.to_vec());
        proof {
            lemma_encoded_layout(*self);
        }
        bytes
    }

    /// Reads the record that `bytes` begin with.
    ///
    /// Returns `None` where the bytes are too few or the byte of the flag is
    /// neither 0 nor 1. Bytes after the record are not looked at.
    pub fn from_bytes(bytes: &[u8]) -> (r: Option<Escrow>)
        ensures
            r is Some <==> decodable(bytes@),
            r matches Some(record) ==> encoded(record) == bytes@.subrange(0, Escrow::LEN as int),
    {
        if bytes.len() < Escrow::LEN {
            return None;
        }
        if bytes[1] > 1 {
            return None;
        }
        let maker = Address::from_slice(slice_subrange(bytes, 2, 34));
        let receiver = Address::from_slice(slice_subrange(bytes, 42, 74));
        let custody = Address::from_slice(slice_subrange(bytes, 82, 114));
        let record = match (maker, receiver, custody) {
            (Some(maker), Some(receiver), Some(custody)) => Escrow {
                bump: bytes[0],
                is_initialized: bytes[1] == 1,
                maker,
                maker_amount: u64_from_le_bytes(slice_subrange(bytes, 34, 42)),
                maker_receive_token_account: receiver,
                taker_amount: u64_from_le_bytes(slice_subrange(bytes, 74, 82)),
                token_account: custody,
            },
            _ => { return None; },
        };
        proof {
            lemma_auto_spec_u64_to_from_le_bytes();
            lemma_encoded_layout(record);
            let stored = bytes@.subrange(0, Escrow::LEN as int);
            assert(spec_u64_to_le_bytes(record.maker_amount) == bytes@.subrange(34, 42));
            assert(spec_u64_to_le_bytes(record.taker_amount) == bytes@.subrange(74, 82));
            assert forall|k: int| 0 <= k < 114 implies encoded(record)[k] == stored[k] by {
                if 2 <= k < 34 {
                    assert(encoded(record).subrange(2, 34)[k - 2] == bytes@.subrange(2, 34)[k - 2]);
                } else if 34 <= k < 42 {
                    assert(encoded(record).subrange(34, 42)[k - 34] == bytes@.subrange(34, 42)[k
                        - 34]);
                } else if 42 <= k < 74 {
                    assert(encoded(record).subrange(42, 74)[k - 42] == bytes@.subrange(42, 74)[k
                        - 42]);
                } else if 74 <= k < 82 {
                    assert(encoded(record).subrange(74, 82)[k - 74] == bytes@.subrange(74, 82)[k
                        - 74]);
                } else if 82 <= k {
                    assert(encoded(record).subrange(82, 114)[k - 82] == bytes@.subrange(82, 114)[k
                        - 82]);
                }
            }
            assert(encoded(record) =~= stored);
        }
        Some(record)
    }

    /// The seeds that derive the record's address, bump seed included.
    pub fn seeds(&self) -> (seeds: Vec<Vec<u8>>)
        ensures
            seed_bytes(seeds@) == record_seeds(*self),
    {
        bumped_seed_list(&self.token_account, &self.maker, self.taker_amount, self.bump)
    }
}

} // verus!
