//! The pseudo-random source: a hash of the time and of a counter, reduced to
//! a range. Whoever knows the time and the counter knows the outcome.

use vstd::prelude::*;

verus! {

/// The Keccak-256 digest of `input`: 32 bytes.
pub uninterp spec fn keccak_256(input: Seq<u8>) -> Seq<u8>;

/// Calls `ink::env::hash_bytes` with the hash `ink::env::hash::Keccak256`.
/// The contract claims that the 32 bytes it writes are a function of the
/// input alone, which it names `keccak_256`.
#[verifier::external_body]
fn hash_keccak_256(input: &Vec<u8>) -> (digest: [u8; 32])
    ensures
        digest@ == keccak_256(input@),
{
    let mut output = [0u8; 32];
    ink::env::hash_bytes::<ink::env::hash::Keccak256>(input.as_slice(), &mut output);
    output
}

/// The eight bytes of `x`, most significant first.
pub open spec fn be_bytes(x: u64) -> Seq<u8> {
    seq![
        (x / 0x100_0000_0000_0000) as u8,
        (x / 0x1_0000_0000_0000 % 256) as u8,
        (x / 0x100_0000_0000 % 256) as u8,
        (x / 0x1_0000_0000 % 256) as u8,
        (x / 0x100_0000 % 256) as u8,
        (x / 0x1_0000 % 256) as u8,
        (x / 0x100 % 256) as u8,
        (x % 256) as u8,
    ]
}

/// What is hashed for a draw: the time and the counter, eight bytes each,
/// most significant first.
pub open spec fn seed(now: u64, salt: u64) -> Seq<u8> {
    be_bytes(now) + be_bytes(salt)
}

/// `byte` reduced to the range from 0 to `max_value`, both included.
pub open spec fn reduced(byte: u8, max_value: u8) -> u8 {
    (byte as int % (max_value as int + 1)) as u8
}

/// The draw that the time `now` and the counter `salt` give for the range
/// from 0 to `max_value`: the first byte of the digest of `seed`, reduced.
pub open spec fn pseudo_random(now: u64, salt: u64, max_value: u8) -> u8 {
    reduced(keccak_256(seed(now, salt))[0], max_value)
}

/// Appends the eight bytes of `x`, most significant first.
pub fn push_be_bytes(out: &mut Vec<u8>, x: u64)
    ensures
        final(out)@ == old(out)@ + be_bytes(x),
{
    out.push((x / 0x100_0000_0000_0000) as u8);
    out.push((x / 0x1_0000_0000_0000 % 256) as u8);
    out.push((x / 0x100_0000_0000 % 256) as u8);
    out.push((x / 0x1_0000_0000 % 256) as u8);
    out.push((x / 0x100_0000 % 256) as u8);
    out.push((x / 0x1_0000 % 256) as u8);
    out.push((x / 0x100 % 256) as u8);
    out.push((x % 256) as u8);
    assert(out@ =~= old(out)@ + be_bytes(x));
}

/// The first byte of `digest`, reduced to the range from 0 to `max_value`.
pub fn reduce_digest(digest: &[u8; 32], max_value: u8) -> (number: u8)
    ensures
        number == reduced(digest@[0], max_value),
{
    (digest[0] as u16 % (max_value as u16 + 1)) as u8
}

/// The draw that `now` and `salt` give for the range from 0 to `max_value`.
pub fn draw(now: u64, salt: u64, max_value: u8) -> (number: u8)
    ensures
        number == pseudo_random(now, salt, max_value),
        number <= max_value,
{
    let mut input: Vec<u8> = Vec::new();
    push_be_bytes(&mut input, now);
    push_be_bytes(&mut input, salt);
    assert(input@ =~= seed(now, salt));
    let output = hash_keccak_256(&input);
    reduce_digest(&output, max_value)
}

} // verus!
