//! Seeds. A seed is a 32-bit number made from the first four bytes of a
//! token, a short readable name; read back as text it shows the start of that
//! name.

use vstd::prelude::*;
use vstd::utf8::{decode_utf8, encode_utf8, encode_utf8_valid_utf8, valid_utf8};
use names::Generator;

verus! {

/// Byte `i` of a token, or zero past its end.
pub open spec fn padded(bytes: Seq<u8>, i: int) -> u8 {
    if 0 <= i < bytes.len() {
        bytes[i]
    } else {
        0u8
    }
}

/// The number that has the given bytes, most significant first.
pub open spec fn from_be_bytes(b0: u8, b1: u8, b2: u8, b3: u8) -> u32 {
    (b0 * 0x100_0000 + b1 * 0x1_0000 + b2 * 0x100 + b3) as u32
}

/// The four bytes of a number, most significant first.
pub open spec fn to_be_bytes(seed: u32) -> Seq<u8> {
    seq![
        (seed / 0x100_0000) as u8,
        (seed / 0x1_0000 % 0x100) as u8,
        (seed / 0x100 % 0x100) as u8,
        (seed % 0x100) as u8,
    ]
}

/// The seed of a token with the given bytes: its first four bytes, most
/// significant first, with zeros where the token is shorter.
pub open spec fn seed_of_bytes(bytes: Seq<u8>) -> u32 {
    from_be_bytes(padded(bytes, 0), padded(bytes, 1), padded(bytes, 2), padded(bytes, 3))
}

/// The seed of a token: the seed of the bytes that encode it as UTF-8.
pub open spec fn seed_of_token(token: Seq<char>) -> u32 {
    seed_of_bytes(encode_utf8(token))
}

/// The greatest seed that any token has: no token's first byte is above
/// `0xf7`.
pub const MAX_TOKEN_SEED: u32 = 0xf7ff_ffff;

/// The seed of a token is at most [`MAX_TOKEN_SEED`].
pub proof fn lemma_token_seed_bound(token: Seq<char>)
    ensures
        seed_of_token(token) <= MAX_TOKEN_SEED,
{
    let bytes = encode_utf8(token);
    encode_utf8_valid_utf8(token);
    if bytes.len() > 0 {
        assert(bytes[0] <= 0xf7);
    }
}

/// Byte `i` of a token, or zero past its end.
fn byte_at(bytes: &[u8], i: usize) -> (b: u8)
    ensures
        b == padded(bytes@, i as int),
{
    if i < bytes.len() {
        bytes[i]
    } else {
        0
    }
}

/// The seed of a token.
pub fn seed_from_token(token: &str) -> (seed: u32)
    ensures
        seed == seed_of_token(token@),
        seed <= MAX_TOKEN_SEED,
{
    proof {
        lemma_token_seed_bound(token@);
    }
    let bytes = token.as_bytes();
    let b0 = byte_at(bytes, 0) as u32;
    let b1 = byte_at(bytes, 1) as u32;
    let b2 = byte_at(bytes, 2) as u32;
    let b3 = byte_at(bytes, 3) as u32;
    b0 * 0x100_0000 + b1 * 0x1_0000 + b2 * 0x100 + b3
}

/// The four bytes of a seed, most significant first.
pub fn seed_bytes(seed: u32) -> (bytes: Vec<u8>)
    ensures
        bytes@ == to_be_bytes(seed),
{
    let mut bytes: Vec<u8> = Vec::new();
    bytes.push((seed / 0x100_0000) as u8);
    bytes.push((seed / 0x1_0000 % 0x100) as u8);
    bytes.push((seed / 0x100 % 0x100) as u8);
    bytes.push((seed % 0x100) as u8);
    assert(bytes@ =~= to_be_bytes(seed));
    bytes
}

/// Calls `String::from_utf8` and keeps the string where there is one. The
/// contract claims what the documentation of that function says: the bytes
/// become a string exactly when they are valid UTF-8, and the string then
/// holds the characters that they encode.
#[verifier::external_body]
fn from_utf8(bytes: Vec<u8>) -> (text: Option<String>)
    ensures
        text.is_some() == valid_utf8(bytes@),
        text matches Some(t) ==> t@ == decode_utf8(bytes@),
{
    String::from_utf8(bytes).ok()
}

/// The text that a seed is shown as, where its bytes are text.
pub open spec fn seed_text_spec(seed: u32) -> Option<Seq<char>> {
    if valid_utf8(to_be_bytes(seed)) {
        Some(decode_utf8(to_be_bytes(seed)))
    } else {
        None
    }
}

/// The text that a seed is shown as: its four bytes read as UTF-8. `None`
/// where they are not valid UTF-8.
pub fn seed_text(seed: u32) -> (text: Option<String>)
    ensures
        text.is_some() == seed_text_spec(seed).is_some(),
        text matches Some(t) ==> seed_text_spec(seed) == Some(t@),
{
    from_utf8(seed_bytes(seed))
}

/// Whether a name has the plain form of the `names` crate, an adjective and
/// a noun joined by a hyphen: it holds a hyphen.
pub open spec fn is_plain_name(name: Seq<char>) -> bool {
    name.contains('-')
}

/// Calls `Generator::default` of the `names` crate and takes the first name
/// from it. Which name comes is random. The contract claims what the
/// generator's `next` shows for the default, plain naming: there is a name,
/// built inside `Some`, and it is written as adjective, hyphen, noun.
#[verifier::external_body]
fn next_name() -> (name: Option<String>)
    ensures
        name.is_some(),
        name matches Some(plain) ==> is_plain_name(plain@),
{
    Generator::default().next()
}

/// A fresh random token of the form adjective-noun, with its seed.
pub fn generate() -> (fresh: (String, u32))
    ensures
        is_plain_name(fresh.0@),
        fresh.1 == seed_of_token(fresh.0@),
        fresh.1 <= MAX_TOKEN_SEED,
{
    let name = next_name().unwrap();
    let seed = seed_from_token(name.as_str());
    (name, seed)
}

/// A seed is its own four bytes: reading the bytes of a seed back gives the
/// seed.
pub proof fn lemma_seed_of_own_bytes(seed: u32)
    ensures
        seed_of_bytes(to_be_bytes(seed)) == seed,
{
    let n = seed as int;
    let b0 = n / 0x100_0000;
    let b1 = n / 0x1_0000 % 0x100;
    let b2 = n / 0x100 % 0x100;
    let b3 = n % 0x100;
    assert(0 <= b0 < 0x100 && 0 <= b1 < 0x100 && 0 <= b2 < 0x100 && 0 <= b3 < 0x100);
    assert(b0 * 0x100_0000 + b1 * 0x1_0000 + b2 * 0x100 + b3 == n);
    let bytes = to_be_bytes(seed);
    assert(bytes.len() == 4);
    assert(bytes[0] == b0 && bytes[1] == b1 && bytes[2] == b2 && bytes[3] == b3);
}

/// Four bytes are the bytes of the number that they make.
proof fn lemma_be_bytes_of_number(b0: u8, b1: u8, b2: u8, b3: u8)
    ensures
        to_be_bytes(from_be_bytes(b0, b1, b2, b3)) == seq![b0, b1, b2, b3],
{
    let n: int = b0 * 0x100_0000 + b1 * 0x1_0000 + b2 * 0x100 + b3;
    assert(0 <= n < 0x1_0000_0000);
    assert(from_be_bytes(b0, b1, b2, b3) == n);
    assert(n / 0x100_0000 == b0);
    assert(n / 0x1_0000 == b0 * 0x100 + b1);
    assert(n / 0x100 == b0 * 0x1_0000 + b1 * 0x100 + b2);
    assert(n / 0x1_0000 % 0x100 == b1);
    assert(n / 0x100 % 0x100 == b2);
    assert(n % 0x100 == b3);
    assert(to_be_bytes(from_be_bytes(b0, b1, b2, b3)) =~= seq![b0, b1, b2, b3]);
}

/// The bytes of a token's seed are the token's first four bytes, with zeros
/// where the token is shorter.
pub proof fn lemma_bytes_of_seed(bytes: Seq<u8>)
    ensures
        to_be_bytes(seed_of_bytes(bytes)) == seq![
            padded(bytes, 0),
            padded(bytes, 1),
            padded(bytes, 2),
            padded(bytes, 3),
        ],
{
    lemma_be_bytes_of_number(
        padded(bytes, 0),
        padded(bytes, 1),
        padded(bytes, 2),
        padded(bytes, 3),
    );
}

} // verus!
