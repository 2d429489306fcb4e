//! The crash decision: a BLAKE2b-256 digest of a seed made of the round id,
//! the block number and the identity that triggered the roll.

use vstd::prelude::*;
use crate::types::AccountId;

verus! {

/// The 32-byte BLAKE2b-256 digest of `input`.
pub uninterp spec fn blake2x256_of(input: Seq<u8>) -> Seq<u8>;

/// Relies on `ink::env::hash_bytes::<Blake2x256>`: it writes the BLAKE2b-256
/// digest of the input, which depends on the input bytes alone.
#[verifier::external_body]
fn blake2x256(input: &Vec<u8>) -> (r: [u8; 32])
    ensures
        r@ == blake2x256_of(input@),
{
    let mut output = [0u8; 32];
    ink::env::hash_bytes::<ink::env::hash::Blake2x256>(input.as_slice(), &mut output);
    output
}

/// Big-endian bytes of a `u64`.
pub open spec fn u64_be(x: u64) -> Seq<u8> {
    seq![
        (x >> 56u64) as u8, (x >> 48u64) as u8, (x >> 40u64) as u8, (x >> 32u64) as u8,
        (x >> 24u64) as u8, (x >> 16u64) as u8, (x >> 8u64) as u8, x as u8,
    ]
}

/// Big-endian bytes of a `u32`.
pub open spec fn u32_be(x: u32) -> Seq<u8> {
    seq![(x >> 24u32) as u8, (x >> 16u32) as u8, (x >> 8u32) as u8, x as u8]
}

/// The seed of a roll: round id and block number in big-endian order, then
/// the triggering account's bytes.
pub open spec fn seed_of(game_id: u64, block: u32, caller: AccountId) -> Seq<u8> {
    u64_be(game_id) + u32_be(block) + caller.bytes@
}

/// The byte that decides a roll: the first byte of the seed's digest.
pub open spec fn entropy_of(game_id: u64, block: u32, caller: AccountId) -> u8 {
    blake2x256_of(seed_of(game_id, block, caller))[0]
}

/// An even entropy byte crashes the round.
pub open spec fn crashes(entropy: u8) -> bool {
    entropy % 2 == 0
}

/// Builds the seed bytes of a roll.
pub fn seed_bytes(game_id: u64, block: u32, caller: &AccountId) -> (r: Vec<u8>)
    ensures
        r@ == seed_of(game_id, block, *caller),
{
    let mut r: Vec<u8> = Vec::new();
    r.push((game_id >> 56u64) as u8);
    r.push((game_id >> 48u64) as u8);
    r.push((game_id >> 40u64) as u8);
    r.push((game_id >> 32u64) as u8);
    r.push((game_id >> 24u64) as u8);
    r.push((game_id >> 16u64) as u8);
    r.push((game_id >> 8u64) as u8);
    r.push(game_id as u8);
    r.push((block >> 24u32) as u8);
    r.push((block >> 16u32) as u8);
    r.push((block >> 8u32) as u8);
    r.push(block as u8);
    assert(r@ =~= u64_be(game_id) + u32_be(block));
    let ghost head = r@;
    let mut i: usize = 0;
    while i < 32
        invariant
            0 <= i <= 32,
            head == u64_be(game_id) + u32_be(block),
            r@ =~= head + caller.bytes@.take(i as int),
        decreases 32 - i,
    {
        r.push(caller.bytes[i]);
        i = i + 1;
    }
    assert(caller.bytes@.take(32) =~= caller.bytes@);
    r
}

/// The first byte of the BLAKE2b-256 digest of `salt`.
pub fn pseudo_random(salt: &Vec<u8>) -> (r: u8)
    ensures
        r == blake2x256_of(salt@)[0],
{
    let digest = blake2x256(salt);
    digest[0]
}

/// Whether a roll with this entropy byte crashes the round.
pub fn is_crash(entropy: u8) -> (r: bool)
    ensures
        r == crashes(entropy),
{
    entropy % 2 == 0
}

} // verus!
