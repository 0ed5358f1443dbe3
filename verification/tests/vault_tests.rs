//! Tests of the credential store: authorization before disclosure,
//! cross-owner isolation, overwrite, re-issuance and round trips.

use totp_vault::otp::generate_code;
use totp_vault::vault::{Vault, VaultError};

fn vault_with_key(owner: &str) -> (Vault, String) {
    let mut v = Vault::new(b"seed".to_vec());
    let token = v.create_viewing_key(&owner.to_string(), b"entropy", b"salt");
    (v, token)
}

#[test]
fn set_then_export_round_trip() {
    let (mut v, token) = vault_with_key("alice");
    let owner = "alice".to_string();
    assert_eq!(v.set_secret(&owner, "12345678901234567890".to_string(), &token), Ok(()));
    assert_eq!(v.export_secret(&owner, &token), Ok("12345678901234567890".to_string()));
}

#[test]
fn set_secret_without_key_is_refused() {
    let mut v = Vault::new(b"seed".to_vec());
    let owner = "alice".to_string();
    let r = v.set_secret(&owner, "x".to_string(), &"whatever".to_string());
    assert_eq!(r, Err(VaultError::NoViewingKey));
    assert_eq!(v.export_secret(&owner, &"whatever".to_string()), Err(VaultError::NoViewingKey));
}

#[test]
fn wrong_token_is_refused() {
    let (mut v, token) = vault_with_key("alice");
    let owner = "alice".to_string();
    let wrong = "not-the-token".to_string();
    assert_eq!(v.set_secret(&owner, "x".to_string(), &wrong), Err(VaultError::InvalidViewingKey));
    assert_eq!(v.set_secret(&owner, "x".to_string(), &token), Ok(()));
    assert_eq!(v.get_totp(&owner, &wrong, 59), Err(VaultError::InvalidViewingKey));
    assert_eq!(v.export_secret(&owner, &wrong), Err(VaultError::InvalidViewingKey));
}

#[test]
fn authorized_but_no_secret_is_not_found() {
    let (v, token) = vault_with_key("alice");
    let owner = "alice".to_string();
    assert_eq!(v.get_totp(&owner, &token, 59), Err(VaultError::NoSecret));
    assert_eq!(v.export_secret(&owner, &token), Err(VaultError::NoSecret));
}

#[test]
fn cross_owner_isolation() {
    let mut v = Vault::new(b"seed".to_vec());
    let alice = "alice".to_string();
    let bob = "bob".to_string();
    let token_a = v.create_viewing_key(&alice, b"entropy-a", b"salt");
    let token_b = v.create_viewing_key(&bob, b"entropy-b", b"salt");
    assert_ne!(token_a, token_b);
    assert_eq!(v.set_secret(&bob, "bobs-secret".to_string(), &token_b), Ok(()));
    assert_eq!(v.export_secret(&bob, &token_a), Err(VaultError::InvalidViewingKey));
    assert_eq!(v.get_totp(&bob, &token_a, 59), Err(VaultError::InvalidViewingKey));
    assert_eq!(v.export_secret(&alice, &token_b), Err(VaultError::InvalidViewingKey));
    assert_eq!(v.export_secret(&bob, &token_b), Ok("bobs-secret".to_string()));
}

#[test]
fn overwrite_leaves_only_the_latest_secret() {
    let (mut v, token) = vault_with_key("alice");
    let owner = "alice".to_string();
    assert_eq!(v.set_secret(&owner, "first".to_string(), &token), Ok(()));
    assert_eq!(v.set_secret(&owner, "second".to_string(), &token), Ok(()));
    assert_eq!(v.export_secret(&owner, &token), Ok("second".to_string()));
}

#[test]
fn reissue_invalidates_the_old_token() {
    let (mut v, old_token) = vault_with_key("alice");
    let owner = "alice".to_string();
    assert_eq!(v.set_secret(&owner, "x".to_string(), &old_token), Ok(()));
    let new_token = v.create_viewing_key(&owner, b"fresh entropy", b"salt");
    assert_ne!(old_token, new_token);
    assert_eq!(v.export_secret(&owner, &old_token), Err(VaultError::InvalidViewingKey));
    assert_eq!(v.get_totp(&owner, &old_token, 59), Err(VaultError::InvalidViewingKey));
    assert_eq!(v.export_secret(&owner, &new_token), Ok("x".to_string()));
}

#[test]
fn totp_is_computed_over_the_stored_secret() {
    let (mut v, token) = vault_with_key("alice");
    let owner = "alice".to_string();
    let secret = "12345678901234567890".to_string();
    assert_eq!(v.set_secret(&owner, secret.clone(), &token), Ok(()));
    assert_eq!(v.get_totp(&owner, &token, 59), Ok("287082".to_string()));
    assert_eq!(v.get_totp(&owner, &token, 59), Ok(generate_code(secret.as_bytes(), 59)));
}

#[test]
fn token_is_lowercase_hex_of_sixty_four_chars() {
    let (_, token) = vault_with_key("alice");
    assert_eq!(token.len(), 64);
    assert!(token.chars().all(|c| c.is_ascii_hexdigit() && !c.is_ascii_uppercase()));
}

#[test]
fn token_derivation_is_deterministic_and_entropy_sensitive() {
    let mut v1 = Vault::new(b"seed".to_vec());
    let mut v2 = Vault::new(b"seed".to_vec());
    let owner = "alice".to_string();
    let t1 = v1.create_viewing_key(&owner, b"entropy", b"salt");
    let t2 = v2.create_viewing_key(&owner, b"entropy", b"salt");
    assert_eq!(t1, t2);
    let t3 = v2.create_viewing_key(&owner, b"other entropy", b"salt");
    assert_ne!(t1, t3);
    let t4 = v1.create_viewing_key(&owner, b"entropy", b"other salt");
    assert_ne!(t1, t4);
}

#[test]
fn token_of_empty_inputs_is_the_sha256_of_nothing() {
    // Every derivation input empty: the token must be the hex digest of the
    // empty byte string, so the derivation really hashes its input.
    let mut v = Vault::new(Vec::new());
    let token = v.create_viewing_key(&String::new(), b"", b"");
    assert_eq!(token, "e3b0c44298fc1c149afbf4c8996fb92427ae41e4649b934ca495991b7852b855");
}

#[test]
fn error_messages_are_stable() {
    assert_eq!(VaultError::NoViewingKey.message(), "Viewing key not found");
    assert_eq!(VaultError::InvalidViewingKey.message(), "Invalid viewing key");
    assert_eq!(VaultError::NoSecret.message(), "No secret found");
}
