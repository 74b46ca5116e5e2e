//! The hashing of the random payload from which kitty DNA is drawn.
//!
//! The payload is SCALE-encoded with `parity-scale-codec` and hashed with
//! Blake2-128 through `sp-io`, as the runtime does.
use vstd::prelude::*;

verus! {

/// The 8 bytes of a `u64`, least significant first.
pub open spec fn le_bytes_u64(x: u64) -> Seq<u8> {
    seq![
        (x % 0x100) as u8,
        ((x / 0x100) % 0x100) as u8,
        ((x / 0x1_0000) % 0x100) as u8,
        ((x / 0x100_0000) % 0x100) as u8,
        ((x / 0x1_0000_0000) % 0x100) as u8,
        ((x / 0x100_0000_0000) % 0x100) as u8,
        ((x / 0x1_0000_0000_0000) % 0x100) as u8,
        ((x / 0x100_0000_0000_0000) % 0x100) as u8,
    ]
}

/// The 4 bytes of a `u32`, least significant first.
pub open spec fn le_bytes_u32(x: u32) -> Seq<u8> {
    seq![
        (x % 0x100) as u8,
        ((x / 0x100) % 0x100) as u8,
        ((x / 0x1_0000) % 0x100) as u8,
        ((x / 0x100_0000) % 0x100) as u8,
    ]
}

/// The SCALE encoding of an optional `u32`: a zero byte for `None`, or a one
/// byte followed by the value.
pub open spec fn scale_option_u32(x: Option<u32>) -> Seq<u8> {
    match x {
        Some(v) => seq![1u8] + le_bytes_u32(v),
        None => seq![0u8],
    }
}

/// The SCALE encoding of the tuple `((seed_hash, seed_block), sender, extrinsic_index)`:
/// the 32 hash bytes as they are, then the three numbers.
pub open spec fn random_payload(
    seed_hash: Seq<u8>,
    seed_block: u64,
    sender: u64,
    extrinsic_index: Option<u32>,
) -> Seq<u8> {
    seed_hash + le_bytes_u64(seed_block) + le_bytes_u64(sender) + scale_option_u32(
        extrinsic_index,
    )
}

/// The Blake2 digest of 128 bits of `data`, as `sp_io::hashing::blake2_128`
/// computes it.
pub uninterp spec fn blake2_128_digest(data: Seq<u8>) -> Seq<u8>;

/// Encodes `((seed_hash, seed_block), &sender, extrinsic_index)` with
/// `parity_scale_codec::Encode::encode`. Trusted: the codec encodes a tuple as
/// the concatenation of its fields, a fixed-size byte array as its bytes, a
/// fixed-width integer as its little-endian bytes and an `Option` as a variant
/// byte followed by the value.
#[verifier::external_body]
fn encode_random_payload(
    seed: ([u8; 32], u64),
    sender: u64,
    extrinsic_index: Option<u32>,
) -> (bytes: Vec<u8>)
    ensures
        bytes@ == random_payload(seed.0@, seed.1, sender, extrinsic_index),
{
    parity_scale_codec::Encode::encode(&(seed, &sender, extrinsic_index))
}

/// Hashes `data` with `sp_io::hashing::blake2_128`. Trusted: the result is the
/// 16-byte digest that `blake2_128_digest` names, a function of `data` alone.
#[verifier::external_body]
fn blake2_128(data: &[u8]) -> (digest: [u8; 16])
    ensures
        digest@ == blake2_128_digest(data@),
{
    sp_io::hashing::blake2_128(data)
}

/// The DNA drawn from a random seed, a sender and an extrinsic index.
pub open spec fn random_dna(
    seed_hash: Seq<u8>,
    seed_block: u64,
    sender: u64,
    extrinsic_index: Option<u32>,
) -> Seq<u8> {
    blake2_128_digest(random_payload(seed_hash, seed_block, sender, extrinsic_index))
}

/// Hashes the SCALE encoding of `(seed, sender, extrinsic_index)` with Blake2-128.
pub fn random_value_from(
    seed: ([u8; 32], u64),
    sender: u64,
    extrinsic_index: Option<u32>,
) -> (value: [u8; 16])
    ensures
        value@ == random_dna(seed.0@, seed.1, sender, extrinsic_index),
{
    let payload = encode_random_payload(seed, sender, extrinsic_index);
    blake2_128(payload.as_slice())
}

} // verus!
