//! Session and API tokens: random 32-byte values written in hexadecimal, stored as the
//! hexadecimal SHA-256 digest of their text.

use vstd::prelude::*;
use crate::json::hex_digit;
use crate::text::push_char;
use rand::RngCore;
use sha2::Digest;

verus! {

/// Bytes written as lowercase hexadecimal, two digits per byte.
pub open spec fn hex_encode(b: Seq<u8>) -> Seq<char>
    decreases b.len(),
{
    if b.len() == 0 {
        seq![]
    } else {
        hex_encode(b.drop_last()) + seq![hex_digit((b.last() / 16) as nat), hex_digit((b.last() % 16) as nat)]
    }
}

/// Hexadecimal text has two digits per byte.
pub proof fn lemma_hex_encode_len(b: Seq<u8>)
    ensures
        hex_encode(b).len() == 2 * b.len(),
    decreases b.len(),
{
    if b.len() > 0 {
        lemma_hex_encode_len(b.drop_last());
    }
}

/// The lowercase hexadecimal digit of `d < 16`, computed.
fn hex_char(d: u8) -> (r: char)
    requires
        d < 16,
    ensures
        r == hex_digit(d as nat),
{
    if d < 10 {
        (d + 48) as char
    } else {
        (d + 87) as char
    }
}

/// Writes bytes as lowercase hexadecimal, two digits per byte.
pub fn hex_string(bytes: &[u8]) -> (r: String)
    ensures
        r@ == hex_encode(bytes@),
{
    let mut out = String::new();
    let mut i: usize = 0;
    while i < bytes.len()
        invariant
            i <= bytes@.len(),
            out@ == hex_encode(bytes@.take(i as int)),
        decreases bytes@.len() - i,
    {
        let b = bytes[i];
        assert(bytes@.take(i + 1).drop_last() =~= bytes@.take(i as int));
        push_char(&mut out, hex_char(b / 16));
        push_char(&mut out, hex_char(b % 16));
        i = i + 1;
        assert(out@ =~= hex_encode(bytes@.take(i as int)));
    }
    assert(bytes@.take(bytes@.len() as int) =~= bytes@);
    out
}

/// The SHA-256 digest of a text's UTF-8 bytes.
pub uninterp spec fn sha256(text: Seq<char>) -> Seq<u8>;

/// `sha2::Sha256::digest` of the UTF-8 bytes of `text`: the digest is named by
/// [`sha256`]; the crate gives it a fixed length of 32 bytes.
#[verifier::external_body]
fn sha256_digest(text: &str) -> (r: Vec<u8>)
    ensures
        r@ == sha256(text@),
        r@.len() == 32,
{
    sha2::Sha256::digest(text.as_bytes()).to_vec()
}

/// The stored form of a token: the hexadecimal SHA-256 digest of its text.
pub fn hash_token(token: &str) -> (r: String)
    ensures
        r@ == hex_encode(sha256(token@)),
        r@.len() == 64,
{
    let digest = sha256_digest(token);
    proof {
        lemma_hex_encode_len(digest@);
    }
    hex_string(digest.as_slice())
}

/// 32 bytes from `rand::thread_rng`, filled with `RngCore::fill_bytes`. Of the outcome only
/// its length is stated: the bytes are random.
#[verifier::external_body]
fn random_bytes() -> (r: Vec<u8>)
    ensures
        r@.len() == 32,
{
    let mut bytes = [0u8; 32];
    rand::thread_rng().fill_bytes(&mut bytes);
    bytes.to_vec()
}

/// A fresh random token: 32 random bytes written in hexadecimal.
pub fn generate_token() -> (r: String)
    ensures
        exists|b: Seq<u8>| b.len() == 32 && r@ == hex_encode(b),
        r@.len() == 64,
{
    let bytes = random_bytes();
    proof {
        lemma_hex_encode_len(bytes@);
    }
    hex_string(bytes.as_slice())
}

} // verus!
