//! The laws the vault keeps, stated over the spec functions and views that
//! the operations' own contracts use, and proved once and for all.

use vstd::prelude::*;
use crate::otp::TIME_STEP_SECONDS;
use crate::otp::be64_bytes;
use crate::otp::totp_code;
use crate::vault::Vault;
use crate::vault::VaultError;
use crate::vault::spec_auth_check;
use crate::vault::spec_authorized;
use crate::vault::spec_export_secret;
use crate::vault::spec_get_totp;

verus! {

/// Determinism: for a fixed secret and time, any two codes that
/// `generate_code` returns are the same string.
pub proof fn lemma_code_deterministic(a: Seq<char>, b: Seq<char>, secret: Seq<u8>, unix_time: u64)
    requires
        a == totp_code(secret, unix_time),
        b == totp_code(secret, unix_time),
    ensures
        a == b,
{
}

/// Time-window insensitivity: two times in the same 30-second window give
/// the same code.
pub proof fn lemma_same_window_same_code(secret: Seq<u8>, t1: u64, t2: u64)
    requires
        t1 / TIME_STEP_SECONDS == t2 / TIME_STEP_SECONDS,
    ensures
        totp_code(secret, t1) == totp_code(secret, t2),
{
}

/// Time-window sensitivity, as far as it can be said of a cryptographic
/// digest: two times in different 30-second windows hand HMAC-SHA1 two
/// different counter messages. (That the two codes themselves differ is a
/// property of the hash, not of this library: six-digit codes collide.)
pub proof fn lemma_distinct_windows_distinct_counters(t1: u64, t2: u64)
    requires
        t1 / TIME_STEP_SECONDS != t2 / TIME_STEP_SECONDS,
    ensures
        be64_bytes((t1 / TIME_STEP_SECONDS) as u64) != be64_bytes((t2 / TIME_STEP_SECONDS) as u64),
{
    let c1 = (t1 / TIME_STEP_SECONDS) as u64;
    let c2 = (t2 / TIME_STEP_SECONDS) as u64;
    if be64_bytes(c1) == be64_bytes(c2) {
        assert(be64_bytes(c1)[0] == be64_bytes(c2)[0]);
        assert(be64_bytes(c1)[1] == be64_bytes(c2)[1]);
        assert(be64_bytes(c1)[2] == be64_bytes(c2)[2]);
        assert(be64_bytes(c1)[3] == be64_bytes(c2)[3]);
        assert(be64_bytes(c1)[4] == be64_bytes(c2)[4]);
        assert(be64_bytes(c1)[5] == be64_bytes(c2)[5]);
        assert(be64_bytes(c1)[6] == be64_bytes(c2)[6]);
        assert(be64_bytes(c1)[7] == be64_bytes(c2)[7]);
        assert(c1 == c2) by (bit_vector)
            requires
                (c1 >> 56) as u8 == (c2 >> 56) as u8,
                (c1 >> 48) as u8 == (c2 >> 48) as u8,
                (c1 >> 40) as u8 == (c2 >> 40) as u8,
                (c1 >> 32) as u8 == (c2 >> 32) as u8,
                (c1 >> 24) as u8 == (c2 >> 24) as u8,
                (c1 >> 16) as u8 == (c2 >> 16) as u8,
                (c1 >> 8) as u8 == (c2 >> 8) as u8,
                c1 as u8 == c2 as u8,
        ;
    }
}

/// Authorization precedes disclosure: an unauthorized caller gets a token
/// error from every operation, the store does not change under `set_secret`,
/// and nothing of the secret — not even whether one exists — comes back.
pub proof fn lemma_no_authorization_no_access(
    v: Vault,
    owner: Seq<char>,
    token: Seq<char>,
    unix_time: u64,
)
    requires
        !spec_authorized(v.key_map(), owner, token),
    ensures
        spec_auth_check(v.key_map(), owner, token) is Err,
        spec_get_totp(v, owner, token, unix_time) == spec_export_secret(v, owner, token),
        spec_export_secret(v, owner, token) == Err::<Seq<char>, VaultError>(
            if v.key_map().contains_key(owner) {
                VaultError::InvalidViewingKey
            } else {
                VaultError::NoViewingKey
            },
        ),
{
}

/// An authorized caller with no stored secret is told exactly that, by both
/// read operations.
pub proof fn lemma_authorized_no_secret(v: Vault, owner: Seq<char>, token: Seq<char>, unix_time: u64)
    requires
        spec_authorized(v.key_map(), owner, token),
        !v.secret_map().contains_key(owner),
    ensures
        spec_get_totp(v, owner, token, unix_time) == Err::<Seq<char>, VaultError>(
            VaultError::NoSecret,
        ),
        spec_export_secret(v, owner, token) == Err::<Seq<char>, VaultError>(VaultError::NoSecret),
{
}

/// Cross-owner isolation: a token that authorizes one owner authorizes no
/// other owner whose token on file differs from that owner's. (Two owners
/// who happen to hold byte-identical tokens are the one excluded case.)
pub proof fn lemma_cross_owner_isolation(v: Vault, a: Seq<char>, b: Seq<char>, token: Seq<char>)
    requires
        spec_authorized(v.key_map(), a, token),
        v.key_map().contains_key(b) ==> v.key_map()[b] != v.key_map()[a],
    ensures
        !spec_authorized(v.key_map(), b, token),
        spec_export_secret(v, b, token) is Err,
{
}

/// Overwrite semantics: after two stores for the same owner, only the later
/// secret is on file — for this owner the store reads as if the first write
/// had never happened, and every other owner's entry is untouched.
pub proof fn lemma_overwrite_last_wins(
    v0: Vault,
    v1: Vault,
    v2: Vault,
    owner: Seq<char>,
    s1: Seq<char>,
    s2: Seq<char>,
)
    requires
        v1.secret_map() == v0.secret_map().insert(owner, s1),
        v2.secret_map() == v1.secret_map().insert(owner, s2),
    ensures
        v2.secret_map() == v0.secret_map().insert(owner, s2),
        v2.secret_map()[owner] == s2,
{
    assert(v2.secret_map() =~= v0.secret_map().insert(owner, s2));
}

/// Token re-issuance: after a new key is filed for an owner, the new token
/// authorizes that owner and every other token value authorizes nothing.
pub proof fn lemma_reissue_invalidates(
    v0: Vault,
    v1: Vault,
    owner: Seq<char>,
    new_token: Seq<char>,
    old_token: Seq<char>,
)
    requires
        v1.key_map() == v0.key_map().insert(owner, new_token),
        old_token != new_token,
    ensures
        spec_authorized(v1.key_map(), owner, new_token),
        !spec_authorized(v1.key_map(), owner, old_token),
{
}

/// Round-trip: a secret stored under a valid token is exactly what
/// `export_secret` then returns, byte for byte.
pub proof fn lemma_set_then_export_round_trip(
    v0: Vault,
    v1: Vault,
    owner: Seq<char>,
    secret: Seq<char>,
    token: Seq<char>,
)
    requires
        spec_authorized(v0.key_map(), owner, token),
        v1.key_map() == v0.key_map(),
        v1.secret_map() == v0.secret_map().insert(owner, secret),
    ensures
        spec_export_secret(v1, owner, token) == Ok::<Seq<char>, VaultError>(secret),
{
}

} // verus!
