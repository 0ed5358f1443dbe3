//! The OTP engine: a pure function from a shared secret and a Unix time to
//! a six-digit decimal code, per the HMAC-based one-time-password algorithm
//! (RFC 4226 dynamic truncation over 30-second time steps, RFC 6238).

use vstd::prelude::*;
use vstd::string::StringExecFns;
use crate::digits::hex_digit_char;
use crate::digits::nibble_str;
use crate::hashes::hmac_sha1;
use crate::hashes::hmac_sha1_of;

verus! {

/// Length of one time window, in seconds.
pub const TIME_STEP_SECONDS: u64 = 30;

/// The code keeps the value modulo this: six decimal digits.
pub const CODE_MODULUS: u32 = 1000000;

/// The eight-byte big-endian encoding of a 64-bit counter.
pub open spec fn be64_bytes(n: u64) -> Seq<u8> {
    seq![
        (n >> 56) as u8,
        (n >> 48) as u8,
        (n >> 40) as u8,
        (n >> 32) as u8,
        (n >> 24) as u8,
        (n >> 16) as u8,
        (n >> 8) as u8,
        n as u8,
    ]
}

/// The dynamic-truncation offset: the low nibble of the digest's last byte.
pub open spec fn dynamic_offset(digest: Seq<u8>) -> int {
    (digest[19] & 0x0f) as int
}

/// The 31-bit value read big-endian from four digest bytes starting at the
/// dynamic offset, with the top bit of the first byte masked off.
pub open spec fn truncated_value(digest: Seq<u8>) -> u32 {
    (((digest[dynamic_offset(digest)] & 0x7f) as u32) << 24) | ((digest[dynamic_offset(
        digest,
    ) + 1] as u32) << 16) | ((digest[dynamic_offset(digest) + 2] as u32) << 8) | (digest[
        dynamic_offset(digest) + 3
    ] as u32)
}

/// The six-character zero-padded decimal rendering of `v` modulo one million.
pub open spec fn code_digits_of(v: u32) -> Seq<char> {
    let c = v % CODE_MODULUS;
    seq![
        hex_digit_char((c / 100000) as int),
        hex_digit_char(((c / 10000) % 10) as int),
        hex_digit_char(((c / 1000) % 10) as int),
        hex_digit_char(((c / 100) % 10) as int),
        hex_digit_char(((c / 10) % 10) as int),
        hex_digit_char((c % 10) as int),
    ]
}

/// The code for `secret` at `unix_time`: HMAC-SHA1 of the big-endian
/// 30-second window counter, dynamically truncated, modulo one million.
pub open spec fn totp_code(secret: Seq<u8>, unix_time: u64) -> Seq<char> {
    code_digits_of(
        truncated_value(
            hmac_sha1_of(secret, be64_bytes((unix_time / TIME_STEP_SECONDS) as u64)),
        ),
    )
}

/// Encodes a counter as eight big-endian bytes.
pub fn u64_to_be_bytes(n: u64) -> (r: Vec<u8>)
    ensures
        r@ == be64_bytes(n),
{
    let mut r: Vec<u8> = Vec::new();
    r.push((n >> 56) as u8);
    r.push((n >> 48) as u8);
    r.push((n >> 40) as u8);
    r.push((n >> 32) as u8);
    r.push((n >> 24) as u8);
    r.push((n >> 16) as u8);
    r.push((n >> 8) as u8);
    r.push(n as u8);
    proof {
        assert(r@ =~= be64_bytes(n));
    }
    r
}

/// One digit value below 10 as a one-character string.
fn digit_str(d: u32) -> (r: &'static str)
    requires
        d < 10,
    ensures
        r@.len() == 1,
        r@[0] == hex_digit_char(d as int),
{
    nibble_str(d as u8)
}

/// Dynamic truncation and decimal rendering of a 20-byte HMAC digest: the
/// step of the OTP algorithm that turns the digest into the visible code.
pub fn code_from_digest(digest: &Vec<u8>) -> (code: String)
    requires
        digest@.len() == 20,
    ensures
        code@ == code_digits_of(truncated_value(digest@)),
        code@.len() == 6,
{
    let last = digest[19];
    let offset = (last & 0x0f) as usize;
    proof {
        assert(last & 0x0f < 16) by (bit_vector);
    }
    let b0 = digest[offset] & 0x7f;
    let v: u32 = ((b0 as u32) << 24) | ((digest[offset + 1] as u32) << 16) | ((digest[offset
        + 2] as u32) << 8) | (digest[offset + 3] as u32);
    let c = v % CODE_MODULUS;
    let mut code = String::new();
    code.append(digit_str(c / 100000));
    code.append(digit_str((c / 10000) % 10));
    code.append(digit_str((c / 1000) % 10));
    code.append(digit_str((c / 100) % 10));
    code.append(digit_str((c / 10) % 10));
    code.append(digit_str(c % 10));
    proof {
        assert(code@ =~= code_digits_of(truncated_value(digest@)));
    }
    code
}

/// The six-digit code for `secret` at `unix_time`. Deterministic: the result
/// is a function of the secret bytes and the 30-second window alone.
pub fn generate_code(secret: &[u8], unix_time: u64) -> (code: String)
    ensures
        code@ == totp_code(secret@, unix_time),
        code@.len() == 6,
{
    let counter: u64 = unix_time / TIME_STEP_SECONDS;
    let counter_bytes = u64_to_be_bytes(counter);
    let digest = hmac_sha1(secret, counter_bytes.as_slice());
    code_from_digest(&digest)
}

} // verus!
