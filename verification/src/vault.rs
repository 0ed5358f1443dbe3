//! The credential store: an owner-keyed vault of shared secrets and the
//! viewing-key tokens that gate access to them. Every read or write of a
//! secret first checks the presented token against the one on file, and the
//! check comes before any word about whether a secret exists at all.

use vstd::prelude::*;
use vstd::utf8::encode_utf8;
use crate::digits::bytes_to_hex;
use crate::digits::hex_of;
use crate::hashes::sha256_of;
use crate::hashes::sha_256;
use crate::otp::generate_code;
use crate::otp::totp_code;
use crate::table::Table;

verus! {

/// Why an operation was refused: the token check failed, or the caller is
/// authorized but holds no secret yet.
#[derive(Clone, Copy, Debug, PartialEq, Eq, Structural)]
pub enum VaultError {
    /// No viewing key is on file for the owner.
    NoViewingKey,
    /// The presented token differs from the one on file.
    InvalidViewingKey,
    /// The owner is authorized but has no stored secret.
    NoSecret,
}

impl VaultError {
    /// The human-readable message for this error kind.
    pub open spec fn spec_message(&self) -> Seq<char> {
        match self {
            VaultError::NoViewingKey => "Viewing key not found"@,
            VaultError::InvalidViewingKey => "Invalid viewing key"@,
            VaultError::NoSecret => "No secret found"@,
        }
    }

    /// The human-readable message for this error kind.
    pub fn message(&self) -> (m: &'static str)
        ensures
            m@ == self.spec_message(),
    {
        match self {
            VaultError::NoViewingKey => "Viewing key not found",
            VaultError::InvalidViewingKey => "Invalid viewing key",
            VaultError::NoSecret => "No secret found",
        }
    }
}

/// A token authorizes an owner exactly when it equals the token on file for
/// that owner.
pub open spec fn spec_authorized(
    key_map: Map<Seq<char>, Seq<char>>,
    owner: Seq<char>,
    token: Seq<char>,
) -> bool {
    key_map.contains_key(owner) && key_map[owner] == token
}

/// The outcome of the token check: the first error the store reports, with
/// a missing key reported before a mismatched one.
pub open spec fn spec_auth_check(
    key_map: Map<Seq<char>, Seq<char>>,
    owner: Seq<char>,
    token: Seq<char>,
) -> Result<(), VaultError> {
    if !key_map.contains_key(owner) {
        Err(VaultError::NoViewingKey)
    } else if key_map[owner] != token {
        Err(VaultError::InvalidViewingKey)
    } else {
        Ok(())
    }
}

/// The token derived for an owner: the lowercase hexadecimal rendering of
/// SHA-256 over the process seed, the owner's identity, the caller-supplied
/// entropy and the environment salt, in that order.
pub open spec fn spec_token(
    seed: Seq<u8>,
    owner: Seq<char>,
    entropy: Seq<u8>,
    salt: Seq<u8>,
) -> Seq<char> {
    hex_of(sha256_of(seed + encode_utf8(owner) + entropy + salt))
}

/// What `get_totp` returns: the token check first, then the secret lookup,
/// then the code over the stored secret's bytes at the given time.
pub open spec fn spec_get_totp(
    v: Vault,
    owner: Seq<char>,
    token: Seq<char>,
    unix_time: u64,
) -> Result<Seq<char>, VaultError> {
    match spec_auth_check(v.key_map(), owner, token) {
        Err(e) => Err(e),
        Ok(()) => if !v.secret_map().contains_key(owner) {
            Err(VaultError::NoSecret)
        } else {
            Ok(totp_code(encode_utf8(v.secret_map()[owner]), unix_time))
        },
    }
}

/// What `export_secret` returns: the token check first, then the stored
/// secret itself.
pub open spec fn spec_export_secret(v: Vault, owner: Seq<char>, token: Seq<char>) -> Result<
    Seq<char>,
    VaultError,
> {
    match spec_auth_check(v.key_map(), owner, token) {
        Err(e) => Err(e),
        Ok(()) => if !v.secret_map().contains_key(owner) {
            Err(VaultError::NoSecret)
        } else {
            Ok(v.secret_map()[owner])
        },
    }
}

/// A `Result` whose success payload is taken at its view.
pub open spec fn result_view(r: Result<String, VaultError>) -> Result<Seq<char>, VaultError> {
    match r {
        Ok(s) => Ok(s@),
        Err(e) => Err(e),
    }
}

/// The vault: the process seed and the two owner-keyed tables.
pub struct Vault {
    seed: Vec<u8>,
    keys: Table,
    secrets: Table,
}

impl Vault {
    /// The process-wide seed, set once at construction.
    pub closed spec fn seed_bytes(&self) -> Seq<u8> {
        self.seed@
    }

    /// Owner identity to viewing-key token.
    pub closed spec fn key_map(&self) -> Map<Seq<char>, Seq<char>> {
        self.keys@
    }

    /// Owner identity to stored secret.
    pub closed spec fn secret_map(&self) -> Map<Seq<char>, Seq<char>> {
        self.secrets@
    }

    /// Both tables carry each owner at most once.
    pub closed spec fn wf(&self) -> bool {
        self.keys.wf() && self.secrets.wf()
    }

    /// A fresh vault holding the given seed and nothing else.
    pub fn new(prng_seed: Vec<u8>) -> (v: Vault)
        ensures
            v.wf(),
            v.seed_bytes() == prng_seed@,
            v.key_map() == Map::<Seq<char>, Seq<char>>::empty(),
            v.secret_map() == Map::<Seq<char>, Seq<char>>::empty(),
    {
        Vault { seed: prng_seed, keys: Table::new(), secrets: Table::new() }
    }

    /// Derives a fresh token for `owner` from the seed, the owner identity,
    /// the caller-supplied entropy and the environment salt, files it as the
    /// owner's viewing key (replacing any earlier one), and returns it. The
    /// returned value is the only channel through which the caller learns
    /// the token.
    pub fn create_viewing_key(&mut self, owner: &String, entropy: &[u8], salt: &[u8]) -> (token:
        String)
        requires
            old(self).wf(),
        ensures
            final(self).wf(),
            token@ == spec_token(old(self).seed_bytes(), owner@, entropy@, salt@),
            token@.len() == 64,
            final(self).key_map() == old(self).key_map().insert(owner@, token@),
            final(self).secret_map() == old(self).secret_map(),
            final(self).seed_bytes() == old(self).seed_bytes(),
    {
        let mut input: Vec<u8> = Vec::new();
        input.extend_from_slice(self.seed.as_slice());
        input.extend_from_slice(owner.as_str().as_bytes());
        input.extend_from_slice(entropy);
        input.extend_from_slice(salt);
        proof {
            assert(input@ =~= self.seed@ + encode_utf8(owner@) + entropy@ + salt@);
        }
        let digest = sha_256(input.as_slice());
        let token = bytes_to_hex(digest.as_slice());
        self.keys.put(owner.clone(), token.clone());
        token
    }

    /// Stores `secret` for `owner` if `presented` matches the owner's token
    /// on file; last write wins. On an error nothing changes, and the error
    /// says only that the token was missing or that it did not match.
    pub fn set_secret(&mut self, owner: &String, secret: String, presented: &String) -> (r: Result<
        (),
        VaultError,
    >)
        requires
            old(self).wf(),
        ensures
            final(self).wf(),
            r == spec_auth_check(old(self).key_map(), owner@, presented@),
            final(self).key_map() == old(self).key_map(),
            final(self).seed_bytes() == old(self).seed_bytes(),
            final(self).secret_map() == if r is Ok {
                old(self).secret_map().insert(owner@, secret@)
            } else {
                old(self).secret_map()
            },
    {
        match self.keys.get(owner) {
            None => Err(VaultError::NoViewingKey),
            Some(stored) => {
                if stored == *presented {
                    self.secrets.put(owner.clone(), secret);
                    Ok(())
                } else {
                    Err(VaultError::InvalidViewingKey)
                }
            },
        }
    }

    /// The six-digit code over the stored secret at `unix_time`, for an
    /// authorized caller. The token check comes first: an unauthorized
    /// caller learns nothing about whether a secret exists.
    pub fn get_totp(&self, owner: &String, presented: &String, unix_time: u64) -> (r: Result<
        String,
        VaultError,
    >)
        requires
            self.wf(),
        ensures
            result_view(r) == spec_get_totp(*self, owner@, presented@, unix_time),
    {
        match self.keys.get(owner) {
            None => Err(VaultError::NoViewingKey),
            Some(stored) => {
                if stored == *presented {
                    match self.secrets.get(owner) {
                        None => Err(VaultError::NoSecret),
                        Some(secret) => Ok(generate_code(secret.as_str().as_bytes(), unix_time)),
                    }
                } else {
                    Err(VaultError::InvalidViewingKey)
                }
            },
        }
    }

    /// The stored secret itself, for an authorized caller, byte for byte as
    /// it was set. The token check comes first, as in `get_totp`.
    pub fn export_secret(&self, owner: &String, presented: &String) -> (r: Result<
        String,
        VaultError,
    >)
        requires
            self.wf(),
        ensures
            result_view(r) == spec_export_secret(*self, owner@, presented@),
    {
        match self.keys.get(owner) {
            None => Err(VaultError::NoViewingKey),
            Some(stored) => {
                if stored == *presented {
                    match self.secrets.get(owner) {
                        None => Err(VaultError::NoSecret),
                        Some(secret) => Ok(secret),
                    }
                } else {
                    Err(VaultError::InvalidViewingKey)
                }
            },
        }
    }
}

} // verus!
