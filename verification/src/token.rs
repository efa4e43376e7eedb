//! Derivation of the rotating keepalive token: an MD5 digest over the
//! big-endian timestamp followed by a salt, written as lowercase hex.

use vstd::prelude::*;

use crate::wire::{be_u32, push_be_u32};
use rustc_serialize::hex::ToHex;

verus! {

/// The 16 digest bytes that MD5 assigns to `data`; the digest depends on
/// the input bytes alone.
pub uninterp spec fn md5_of(data: Seq<u8>) -> Seq<u8>;

/// The lowercase hexadecimal digit for a value in `0..16`.
pub open spec fn hex_digit(n: int) -> char {
    if n == 0 {
        '0'
    } else if n == 1 {
        '1'
    } else if n == 2 {
        '2'
    } else if n == 3 {
        '3'
    } else if n == 4 {
        '4'
    } else if n == 5 {
        '5'
    } else if n == 6 {
        '6'
    } else if n == 7 {
        '7'
    } else if n == 8 {
        '8'
    } else if n == 9 {
        '9'
    } else if n == 10 {
        'a'
    } else if n == 11 {
        'b'
    } else if n == 12 {
        'c'
    } else if n == 13 {
        'd'
    } else if n == 14 {
        'e'
    } else {
        'f'
    }
}

/// Two lowercase hexadecimal digits for each byte, high digit first.
pub open spec fn hex_of(data: Seq<u8>) -> Seq<char>
    decreases data.len(),
{
    if data.len() == 0 {
        Seq::empty()
    } else {
        hex_of(data.drop_last()) + seq![
            hex_digit(data.last() as int / 16),
            hex_digit(data.last() as int % 16),
        ]
    }
}

/// The hexadecimal form is exactly twice as long as the bytes it encodes.
pub proof fn lemma_hex_of_len(data: Seq<u8>)
    ensures
        hex_of(data).len() == 2 * data.len(),
    decreases data.len(),
{
    if data.len() > 0 {
        lemma_hex_of_len(data.drop_last());
    }
}

/// The keepalive token for timestamp `t` and salt bytes `salt`: the MD5
/// digest of the big-endian timestamp followed by the salt, in hex.
pub open spec fn spec_token(t: u32, salt: Seq<u8>) -> Seq<char> {
    hex_of(md5_of(be_u32(t) + salt))
}

/// The salt bytes of a derivation: the UTF-8 bytes of the previous
/// token, or of the fixed protocol seed for the first heartbeat.
pub open spec fn spec_salt(last_data: Option<&str>) -> Seq<u8> {
    match last_data {
        Some(data) => vstd::utf8::encode_utf8(data@),
        None => vstd::utf8::encode_utf8("llwl"@),
    }
}

/// Law: token derivation is deterministic — an equal timestamp and an
/// equal salt always give the equal token.
pub proof fn lemma_token_deterministic(t1: u32, salt1: Seq<u8>, t2: u32, salt2: Seq<u8>)
    requires
        t1 == t2,
        salt1 == salt2,
    ensures
        spec_token(t1, salt1) == spec_token(t2, salt2),
{
}

/// Relies on openssl::hash::hash with openssl::hash::MessageDigest::md5:
/// the result is the 16-byte MD5 digest of the input, a function of the
/// input bytes alone. A failure of the primitive is fatal, as the
/// protocol demands.
#[verifier::external_body]
fn md5_digest(data: &Vec<u8>) -> (r: Vec<u8>)
    ensures
        r@ == md5_of(data@),
        r@.len() == 16,
{
    let digest = openssl::hash::hash(openssl::hash::MessageDigest::md5(), data.as_slice())
        .expect("MD5 digest failed");
    digest.to_vec()
}

/// Relies on rustc_serialize::hex::ToHex for [u8]: each byte becomes two
/// lowercase hexadecimal digits, high nibble first.
#[verifier::external_body]
fn bytes_to_hex(data: &Vec<u8>) -> (r: String)
    ensures
        r@ == hex_of(data@),
{
    data.as_slice().to_hex()
}

/// Relies on std::time::SystemTime::now: the seconds of the Unix clock,
/// truncated to 32 bits. Nothing is promised of the value read.
#[verifier::external_body]
pub(crate) fn current_unix_time() -> u32 {
    match std::time::SystemTime::now().duration_since(std::time::UNIX_EPOCH) {
        Ok(elapsed) => elapsed.as_secs() as u32,
        Err(_) => 0,
    }
}

/// Computes the keepalive token for a concrete timestamp and salt.
pub fn derive_token(timestamp: u32, salt: &[u8]) -> (r: String)
    ensures
        r@ == spec_token(timestamp, salt@),
        r@.len() == 32,
{
    let mut message: Vec<u8> = Vec::new();
    push_be_u32(&mut message, timestamp);
    assert(message@ =~= be_u32(timestamp) + salt@.take(0));
    let mut i: usize = 0;
    while i < salt.len()
        invariant
            i <= salt@.len(),
            message@ == be_u32(timestamp) + salt@.take(i as int),
        decreases salt@.len() - i,
    {
        message.push(salt[i]);
        assert(message@ =~= be_u32(timestamp) + salt@.take(i + 1));
        i = i + 1;
    }
    assert(message@ =~= be_u32(timestamp) + salt@);
    let digest = md5_digest(&message);
    let token = bytes_to_hex(&digest);
    proof {
        lemma_hex_of_len(digest@);
    }
    token
}

} // verus!
