//! Decoding of the hex-encoded verification key and signature that every
//! authorization message carries.
//!
//! Decoding mirrors the settlement path's tolerance: a malformed hex string
//! is not an error of its own, it simply leaves the zero-filled buffer in
//! place, and signature verification then fails downstream.
use vstd::prelude::*;

verus! {

/// Whether `c` is a hexadecimal digit, upper or lower case.
pub open spec fn is_hex_digit(c: char) -> bool {
    (48 <= c as int <= 57) || (97 <= c as int <= 102) || (65 <= c as int <= 70)
}

/// The value of a hexadecimal digit.
pub open spec fn hex_digit_val(c: char) -> nat {
    if 48 <= c as int <= 57 {
        (c as int - 48) as nat
    } else if 97 <= c as int <= 102 {
        (c as int - 87) as nat
    } else if 65 <= c as int <= 70 {
        (c as int - 55) as nat
    } else {
        0
    }
}

/// The bytes denoted by a hex string, two digits per byte, high digit
/// first.
pub open spec fn hex_bytes(s: Seq<char>) -> Seq<u8> {
    Seq::new((s.len() / 2) as nat, |i: int| (hex_digit_val(s[2 * i]) * 16 + hex_digit_val(s[2 * i + 1])) as u8)
}

/// Whether `s` is the hex notation of exactly `n` bytes.
pub open spec fn valid_hex(s: Seq<char>, n: nat) -> bool {
    s.len() == 2 * n && forall|i: int| 0 <= i < s.len() ==> is_hex_digit(s[i])
}

/// Relies on `hex::decode_to_slice`: when the input is the hex notation of
/// exactly `n` bytes it fills the buffer with those bytes, high digit of
/// each byte first; on any malformed input it reports an error, which this
/// path deliberately ignores, keeping whatever the buffer holds.
#[verifier::external_body]
fn hex_decode_fixed(s: &String, n: usize) -> (r: Vec<u8>)
    ensures
        r@.len() == n,
        valid_hex(s@, n as nat) ==> r@ == hex_bytes(s@),
{
    let mut buf: Vec<u8> = vec![0u8; n];
    let _ = hex::decode_to_slice(s.as_str(), &mut buf[..]);
    buf
}

/// Decodes a 32-byte verification key from its hex notation; a malformed
/// key yields a buffer a real signature will not verify against.
pub fn decode_verification_key(public_key: &String) -> (r: Vec<u8>)
    ensures
        r@.len() == 32,
        valid_hex(public_key@, 32) ==> r@ == hex_bytes(public_key@),
{
    hex_decode_fixed(public_key, 32)
}

/// Decodes a 64-byte detached signature from its hex notation.
pub fn decode_signature(signature: &String) -> (r: Vec<u8>)
    ensures
        r@.len() == 64,
        valid_hex(signature@, 64) ==> r@ == hex_bytes(signature@),
{
    hex_decode_fixed(signature, 64)
}

} // verus!
