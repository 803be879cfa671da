//! From a seed text to a random generator.
//!
//! The seed of a text is the SHA-256 digest of the text's UTF-8 bytes: the
//! thirty-two bytes of the digest seed the generator.

use rand::rngs::StdRng;
use rand::SeedableRng;
use sha2::{Digest, Sha256};
use vstd::prelude::*;
use vstd::utf8::encode_utf8;

verus! {

/// How many bytes a SHA-256 digest has.
pub const DIGEST_LEN: usize = 32;

/// How many bytes seed a generator.
pub const SEED_LEN: usize = 32;

/// The character `0` in ASCII.
pub const ASCII_ZERO: u8 = 48;

/// The character `a` in ASCII.
pub const ASCII_A: u8 = 97;

/// The standard generator of `rand`, opaque to the verifier.
#[verifier::external_type_specification]
#[verifier::external_body]
pub struct ExStdRng(StdRng);

/// The SHA-256 digest of `data`.
pub uninterp spec fn sha256(data: Seq<u8>) -> Seq<u8>;

/// The generator that `StdRng::from_seed` makes of `seed`.
pub uninterp spec fn seeded_generator(seed: Seq<u8>) -> StdRng;

/// Calls `sha2::Sha256::digest`. Trusted: that the result is the SHA-256
/// digest of `data`, a function of `data` alone, and thirty-two bytes long.
#[verifier::external_body]
fn sha256_digest(data: &[u8]) -> (digest: Vec<u8>)
    ensures
        digest@ == sha256(data@),
        digest@.len() == DIGEST_LEN,
{
    Sha256::digest(data).to_vec()
}

/// Calls `StdRng::from_seed` of `rand`. Trusted: that the generator is a
/// function of the seed alone.
#[verifier::external_body]
fn generator_from_seed(seed: [u8; 32]) -> (rng: StdRng)
    ensures
        rng == seeded_generator(seed@),
{
    StdRng::from_seed(seed)
}

/// The lower-case hexadecimal digit of a number below sixteen, in ASCII.
pub open spec fn hex_digit(nibble: int) -> u8
    recommends
        0 <= nibble < 16,
{
    if nibble < 10 {
        ('0' as u8 + nibble) as u8
    } else {
        ('a' as u8 + nibble - 10) as u8
    }
}

/// Bytes in lower-case hexadecimal: two digits for each byte, the high half
/// first.
pub open spec fn hex_text(bytes: Seq<u8>) -> Seq<u8> {
    Seq::new(
        2 * bytes.len(),
        |i: int|
            if i % 2 == 0 {
                hex_digit(bytes[i / 2] as int / 16)
            } else {
                hex_digit(bytes[i / 2] as int % 16)
            },
    )
}

/// The digest of a text, in hexadecimal.
pub open spec fn hash_text(text: Seq<char>) -> Seq<u8> {
    hex_text(sha256(encode_utf8(text)))
}

/// The seed of a text: the digest of its UTF-8 bytes.
pub open spec fn seed_of(text: Seq<char>) -> Seq<u8> {
    sha256(encode_utf8(text))
}

/// The hexadecimal digit of `nibble`.
fn hex_digit_of(nibble: u8) -> (digit: u8)
    requires
        nibble < 16,
    ensures
        digit == hex_digit(nibble as int),
{
    if nibble < 10 {
        ASCII_ZERO + nibble
    } else {
        ASCII_A + (nibble - 10)
    }
}

/// Renders `bytes` in lower-case hexadecimal.
pub fn to_hex(bytes: &[u8]) -> (text: Vec<u8>)
    ensures
        text@ == hex_text(bytes@),
{
    let mut text: Vec<u8> = Vec::new();
    let mut i: usize = 0;
    while i < bytes.len()
        invariant
            i <= bytes@.len(),
            text@ == hex_text(bytes@.take(i as int)),
        decreases bytes.len() - i,
    {
        let byte: u8 = bytes[i];
        text.push(hex_digit_of(byte / 16));
        text.push(hex_digit_of(byte % 16));
        i += 1;
        assert(text@ =~= hex_text(bytes@.take(i as int)));
    }
    assert(bytes@.take(i as int) =~= bytes@);
    text
}

/// The SHA-256 digest of `text`, in lower-case hexadecimal: sixty-four
/// characters, as bytes.
pub fn create_hash(text: &str) -> (hash: Vec<u8>)
    ensures
        hash@ == hash_text(text@),
        hash@.len() == 2 * DIGEST_LEN,
{
    let digest = sha256_digest(text.as_bytes());
    to_hex(digest.as_slice())
}

/// The seed that stands for `text`.
pub fn create_seed(text: &str) -> (seed: [u8; 32])
    ensures
        seed@ == sha256(encode_utf8(text@)),
{
    let digest = sha256_digest(text.as_bytes());
    let mut seed: [u8; 32] = [0u8; 32];
    let mut i: usize = 0;
    while i < SEED_LEN
        invariant
            i <= SEED_LEN,
            digest@.len() == DIGEST_LEN,
            forall|j: int| 0 <= j < i ==> seed@[j] == digest@[j],
        decreases SEED_LEN - i,
    {
        seed[i] = digest[i];
        i += 1;
    }
    assert(seed@ =~= digest@);
    seed
}

/// The random generator that stands for `text`: the one that the digest of
/// the text's UTF-8 bytes seeds.
pub fn create_seeded_rng(text: &str) -> (rng: StdRng)
    ensures
        rng == seeded_generator(sha256(encode_utf8(text@))),
{
    generator_from_seed(create_seed(text))
}

/// One text always gives one generator: seeded a second time with the same
/// text, the generator starts out the same.
pub proof fn same_text_same_generator(first: Seq<char>, second: Seq<char>)
    requires
        first == second,
    ensures
        seed_of(first) == seed_of(second),
        seeded_generator(seed_of(first)) == seeded_generator(seed_of(second)),
{
}

} // verus!
