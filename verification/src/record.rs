//! The custody record as it is persisted.
//!
//! The layout is fixed: one discriminator byte, the seed, the maker, the
//! offered and the requested asset type, the requested amount and the bump,
//! 114 bytes in all, integers little-endian.

use vstd::prelude::*;
use crate::account::Environment;
use crate::address::{
    Address, address_of, derive_address_with_bump, derive_with_bump_spec, lemma_address_of_bytes,
    lemma_address_of_view, push_address, read_address, seed_bytes, with_bump,
};
use crate::bytes::{
    le_u64, lemma_bytes_of_le_u64, lemma_le_u64_of_bytes, push_u64_le, read_u64_le, u64_le_bytes,
    u64_to_le_vec,
};
use crate::error::CustodyError;

verus! {

/// The number of bytes of a persisted custody record.
pub const ESCROW_LEN: usize = 114;

/// The first byte of a persisted custody record.
pub const ESCROW_DISCRIMINATOR: u8 = 1;

/// A custody record: what the maker offers, what is asked in return, and how
/// the record's address was derived.
#[derive(Clone, Copy, Debug, PartialEq, Eq)]
pub struct Escrow {
    /// Tells apart the records of one maker.
    pub seed: u64,
    /// Who created the record and is paid when it is taken.
    pub maker: Address,
    /// The asset type that is offered.
    pub asset_a: Address,
    /// The asset type that is requested.
    pub asset_b: Address,
    /// How much of the requested asset the taker has to pay.
    pub requested_amount: u64,
    /// The bump with which the record's address was derived.
    pub bump: u8,
}

impl Escrow {
    /// The bytes that persist the record.
    pub open spec fn pack_spec(self) -> Seq<u8> {
        seq![ESCROW_DISCRIMINATOR] + u64_le_bytes(self.seed) + self.maker@ + self.asset_a@
            + self.asset_b@ + u64_le_bytes(self.requested_amount) + seq![self.bump]
    }

    /// Whether the bytes have the size and the discriminator of a record.
    pub open spec fn is_record(data: Seq<u8>) -> bool {
        data.len() == ESCROW_LEN && data[0] == ESCROW_DISCRIMINATOR
    }

    /// The record that bytes with the layout of a record persist.
    pub open spec fn unpack_spec(data: Seq<u8>) -> Escrow
        recommends
            Self::is_record(data),
    {
        Escrow {
            seed: le_u64(data.subrange(1, 9)) as u64,
            maker: address_of(data.subrange(9, 41)),
            asset_a: address_of(data.subrange(41, 73)),
            asset_b: address_of(data.subrange(73, 105)),
            requested_amount: le_u64(data.subrange(105, 113)) as u64,
            bump: data[113],
        }
    }

    /// The bytes that persist the record.
    pub fn pack(&self) -> (r: Vec<u8>)
        ensures
            r@ == self.pack_spec(),
    {
        let mut out: Vec<u8> = Vec::new();
        out.push(ESCROW_DISCRIMINATOR);
        push_u64_le(&mut out, self.seed);
        push_address(&mut out, &self.maker);
        push_address(&mut out, &self.asset_a);
        push_address(&mut out, &self.asset_b);
        push_u64_le(&mut out, self.requested_amount);
        out.push(self.bump);
        out
    }

    /// Reads a record from the data of an account.
    ///
    /// No data at all means that no record was created there, or that it was
    /// closed; data of another size or with another first byte is not a
    /// record.
    pub fn unpack(data: &[u8]) -> (r: Result<Escrow, CustodyError>)
        ensures
            data@.len() == 0 ==> r == Err::<Escrow, CustodyError>(CustodyError::Uninitialized),
            data@.len() != 0 && !Self::is_record(data@) ==> r == Err::<Escrow, CustodyError>(
                CustodyError::WrongLayout,
            ),
            Self::is_record(data@) ==> r == Ok::<Escrow, CustodyError>(Self::unpack_spec(data@)),
    {
        if data.len() == 0 {
            return Err(CustodyError::Uninitialized);
        }
        if data.len() != ESCROW_LEN || data[0] != ESCROW_DISCRIMINATOR {
            return Err(CustodyError::WrongLayout);
        }
        Ok(
            Escrow {
                seed: read_u64_le(data, 1),
                maker: read_address(data, 9),
                asset_a: read_address(data, 41),
                asset_b: read_address(data, 73),
                requested_amount: read_u64_le(data, 105),
                bump: data[113],
            },
        )
    }

    /// Writing a record and reading the bytes back gives the record.
    pub proof fn lemma_unpack_pack(self)
        ensures
            Self::is_record(self.pack_spec()),
            Self::unpack_spec(self.pack_spec()) == self,
    {
        let data = self.pack_spec();
        lemma_le_u64_of_bytes(self.seed);
        lemma_le_u64_of_bytes(self.requested_amount);
        assert(data.subrange(9, 41) =~= self.maker@);
        assert(data.subrange(41, 73) =~= self.asset_a@);
        assert(data.subrange(73, 105) =~= self.asset_b@);
        lemma_address_of_view(self.maker);
        lemma_address_of_view(self.asset_a);
        lemma_address_of_view(self.asset_b);
    }

    /// Reading a record and writing it again gives the same bytes.
    pub proof fn lemma_pack_unpack(data: Seq<u8>)
        requires
            Self::is_record(data),
        ensures
            Self::unpack_spec(data).pack_spec() == data,
    {
        let e = Self::unpack_spec(data);
        lemma_bytes_of_le_u64(data.subrange(1, 9));
        lemma_bytes_of_le_u64(data.subrange(105, 113));
        lemma_address_of_bytes(data.subrange(9, 41));
        lemma_address_of_bytes(data.subrange(41, 73));
        lemma_address_of_bytes(data.subrange(73, 105));
    }
}

/// The first seed of every custody record: the bytes of `escrow`.
pub open spec fn escrow_tag() -> Seq<u8> {
    seq![0x65u8, 0x73u8, 0x63u8, 0x72u8, 0x6fu8, 0x77u8]
}

/// The seeds of the custody record of `maker` with the given seed.
pub open spec fn escrow_seeds_spec(maker: Address, seed: u64) -> Seq<Seq<u8>> {
    seq![escrow_tag(), maker@, u64_le_bytes(seed)]
}

/// The seeds of the custody record of `maker` with the given seed.
pub fn escrow_seeds(maker: &Address, seed: u64) -> (r: Vec<Vec<u8>>)
    ensures
        seed_bytes(r@) == escrow_seeds_spec(*maker, seed),
{
    let mut tag: Vec<u8> = Vec::new();
    tag.push(0x65u8);
    tag.push(0x73u8);
    tag.push(0x63u8);
    tag.push(0x72u8);
    tag.push(0x6fu8);
    tag.push(0x77u8);
    assert(tag@ =~= escrow_tag());
    let mut seeds: Vec<Vec<u8>> = Vec::new();
    seeds.push(tag);
    seeds.push(maker.to_vec());
    seeds.push(u64_to_le_vec(seed));
    seeds
}

/// The seeds that prove the program's authority over a custody record: its
/// seeds followed by its bump.
pub fn escrow_signer_seeds(maker: &Address, seed: u64, bump: u8) -> (r: Vec<Vec<u8>>)
    ensures
        seed_bytes(r@) == escrow_seeds_spec(*maker, seed).push(seq![bump]),
{
    with_bump(escrow_seeds(maker, seed), bump)
}

/// The address at which the record says it lives: the one its maker, its
/// seed and its bump derive.
pub open spec fn record_address(env: Environment, record: Escrow) -> Option<Address> {
    derive_with_bump_spec(
        escrow_seeds_spec(record.maker, record.seed),
        record.bump,
        env.program_id,
    )
}

/// The address at which the record says it lives.
pub fn address_of_record(env: &Environment, record: &Escrow) -> (r: Option<Address>)
    ensures
        r == record_address(*env, *record),
{
    let seeds = escrow_seeds(&record.maker, record.seed);
    derive_address_with_bump(&seeds, record.bump, &env.program_id)
}

} // verus!
