//! Tests of the OTP engine against the standard HMAC-SHA1 reference
//! vectors, truncated to six digits.

use totp_vault::otp::generate_code;

const RFC_SECRET: &[u8] = b"12345678901234567890";

#[test]
fn reference_vector_at_59() {
    // floor(59 / 30) = 1: the standard vector at counter 1.
    assert_eq!(generate_code(RFC_SECRET, 59), "287082");
}

#[test]
fn reference_vectors_at_later_times() {
    assert_eq!(generate_code(RFC_SECRET, 1111111109), "081804");
    assert_eq!(generate_code(RFC_SECRET, 1111111111), "050471");
    assert_eq!(generate_code(RFC_SECRET, 1234567890), "005924");
    assert_eq!(generate_code(RFC_SECRET, 2000000000), "279037");
    assert_eq!(generate_code(RFC_SECRET, 20000000000), "353130");
}

#[test]
fn counter_zero_vector() {
    // Any time below 30 falls in window 0: the standard vector at counter 0.
    assert_eq!(generate_code(RFC_SECRET, 0), "755224");
    assert_eq!(generate_code(RFC_SECRET, 29), "755224");
}

#[test]
fn deterministic_for_fixed_inputs() {
    let a = generate_code(RFC_SECRET, 59);
    let b = generate_code(RFC_SECRET, 59);
    assert_eq!(a, b);
}

#[test]
fn constant_within_a_window() {
    assert_eq!(generate_code(RFC_SECRET, 30), generate_code(RFC_SECRET, 59));
    assert_eq!(generate_code(RFC_SECRET, 0), generate_code(RFC_SECRET, 29));
}

#[test]
fn changes_across_windows() {
    assert_ne!(generate_code(RFC_SECRET, 29), generate_code(RFC_SECRET, 30));
    assert_ne!(generate_code(RFC_SECRET, 59), generate_code(RFC_SECRET, 60));
}

#[test]
fn empty_secret_is_accepted() {
    let a = generate_code(b"", 59);
    let b = generate_code(b"", 59);
    assert_eq!(a, b);
    assert_eq!(a.len(), 6);
    assert!(a.chars().all(|c| c.is_ascii_digit()));
}

#[test]
fn code_is_always_six_digits() {
    for t in [0u64, 1, 31, 59, 12345, 987654321, u64::MAX] {
        let code = generate_code(RFC_SECRET, t);
        assert_eq!(code.len(), 6);
        assert!(code.chars().all(|c| c.is_ascii_digit()));
    }
}
