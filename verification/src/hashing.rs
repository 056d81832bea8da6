//! The public planet identifier: an iterated digest of the coordinate and
//! game identifier.
//!
//! Unlike the mixing hash inside the circuits, this identifier is computed
//! in the clear and serves as the planet's public key; anyone holding the
//! coordinate can recompute and check it.

use vstd::prelude::*;

verus! {

/// The digest of a byte string, named but not defined: it depends on the
/// input bytes alone.
pub uninterp spec fn blake3_of(input: Seq<u8>) -> Seq<u8>;

/// Relies on blake3::hash: a 32-byte digest that is a function of the input
/// bytes alone.
#[verifier::external_body]
fn blake3_hash32(data: &[u8]) -> (r: [u8; 32])
    ensures
        r@ == blake3_of(data@),
{
    *blake3::hash(data).as_bytes()
}

/// The digest after `extra` additional re-hashing rounds.
pub open spec fn spec_iterated_blake3(input: Seq<u8>, extra: nat) -> Seq<u8>
    decreases extra,
{
    if extra == 0 {
        blake3_of(input)
    } else {
        blake3_of(spec_iterated_blake3(input, (extra - 1) as nat))
    }
}

/// The 24-byte preimage of a planet hash: the little-endian bytes of the
/// two coordinates (as 64-bit words) and the game identifier.
pub open spec fn spec_planet_preimage(x: i64, y: i64, game_id: u64) -> Seq<u8> {
    vstd::bytes::spec_u64_to_le_bytes(x as u64) + vstd::bytes::spec_u64_to_le_bytes(y as u64)
        + vstd::bytes::spec_u64_to_le_bytes(game_id)
}

/// The public planet identifier: the preimage digested once, then re-hashed
/// for each round beyond the first.
pub open spec fn spec_planet_hash(x: i64, y: i64, game_id: u64, hash_rounds: u16) -> Seq<u8> {
    let extra: nat = if hash_rounds <= 1 {
        0
    } else {
        (hash_rounds - 1) as nat
    };
    spec_iterated_blake3(spec_planet_preimage(x, y, game_id), extra)
}

/// Compute the public planet identifier for a coordinate.
pub fn compute_planet_hash(x: i64, y: i64, game_id: u64, hash_rounds: u16) -> (r: [u8; 32])
    ensures
        r@ == spec_planet_hash(x, y, game_id, hash_rounds),
{
    let xu = #[verifier::truncate] (x as u64);
    let yu = #[verifier::truncate] (y as u64);
    let mut input = vstd::bytes::u64_to_le_bytes(xu);
    let mut y_bytes = vstd::bytes::u64_to_le_bytes(yu);
    let mut g_bytes = vstd::bytes::u64_to_le_bytes(game_id);
    input.append(&mut y_bytes);
    input.append(&mut g_bytes);
    assert(input@ == spec_planet_preimage(x, y, game_id));

    let mut hash = blake3_hash32(input.as_slice());
    let ghost preimage = spec_planet_preimage(x, y, game_id);
    let mut round: u16 = 1;
    while round < hash_rounds
        invariant
            1 <= round,
            hash_rounds <= 1 ==> round == 1,
            hash_rounds > 1 ==> round <= hash_rounds,
            hash@ == spec_iterated_blake3(preimage, (round - 1) as nat),
        decreases hash_rounds - round,
    {
        hash = blake3_hash32(hash.as_slice());
        round += 1;
    }
    hash
}

} // verus!
