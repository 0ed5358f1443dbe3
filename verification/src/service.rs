//! The service facade: the request and response types of the four logical
//! operations, and one handler per message variant, each a pure switch over
//! the vault. The caller's identity, the environment salt and the clock are
//! facts the host hands in; the wire encoding of the messages is the host's
//! business.

use vstd::prelude::*;
use vstd::utf8::encode_utf8;
use crate::vault::Vault;
use crate::vault::VaultError;
use crate::vault::spec_auth_check;
use crate::vault::spec_get_totp;
use crate::vault::spec_export_secret;
use crate::vault::spec_token;

verus! {

/// The initialization message: the process-wide seed, set once.
pub struct InstantiateMsg {
    pub prng_seed: Vec<u8>,
}

/// A state-changing request from the authenticated caller.
pub enum ExecuteMsg {
    /// Store a secret, presenting the caller's viewing key.
    SetSecret { secret: String, viewing_key: String },
    /// Derive and file a fresh viewing key from the given entropy.
    CreateViewingKey { entropy: String },
}

/// A read-only request from the authenticated caller.
pub enum QueryMsg {
    /// The six-digit code over the caller's stored secret, now.
    GetTOTP { viewing_key: String },
    /// The caller's stored secret itself.
    ExportSecret { viewing_key: String },
}

/// The acknowledgment of a state-changing request.
pub enum ExecuteResponse {
    /// The secret was stored.
    SecretStored,
    /// The fresh token, returned to the caller over this channel alone.
    ViewingKeyCreated { viewing_key: String },
}

/// The payload of a read-only request.
pub enum QueryResponse {
    /// The six-digit code.
    Totp { code: String },
    /// The stored secret, byte for byte.
    Secret { secret: String },
}

/// Sets the vault up with the seed of the initialization message.
pub fn instantiate(msg: InstantiateMsg) -> (v: Vault)
    ensures
        v.wf(),
        v.seed_bytes() == msg.prng_seed@,
        v.key_map() == Map::<Seq<char>, Seq<char>>::empty(),
        v.secret_map() == Map::<Seq<char>, Seq<char>>::empty(),
{
    Vault::new(msg.prng_seed)
}

/// Dispatches a state-changing request for the authenticated `sender`;
/// `salt` is the environment-provided nonce for token derivation.
pub fn execute(v: &mut Vault, sender: &String, salt: &[u8], msg: ExecuteMsg) -> (r: Result<
    ExecuteResponse,
    VaultError,
>)
    requires
        old(v).wf(),
    ensures
        final(v).wf(),
        final(v).seed_bytes() == old(v).seed_bytes(),
        match msg {
            ExecuteMsg::SetSecret { secret, viewing_key } => {
                &&& final(v).key_map() == old(v).key_map()
                &&& (match spec_auth_check(old(v).key_map(), sender@, viewing_key@) {
                    Ok(()) => r matches Ok(resp) && resp is SecretStored && final(v).secret_map()
                        == old(v).secret_map().insert(sender@, secret@),
                    Err(e) => r matches Err(e2) && e2 == e && final(v).secret_map() == old(
                        v,
                    ).secret_map(),
                })
            },
            ExecuteMsg::CreateViewingKey { entropy } => {
                &&& final(v).secret_map() == old(v).secret_map()
                &&& r matches Ok(resp) && resp matches ExecuteResponse::ViewingKeyCreated {
                    viewing_key,
                } && viewing_key@ == spec_token(
                    old(v).seed_bytes(),
                    sender@,
                    encode_utf8(entropy@),
                    salt@,
                ) && final(v).key_map() == old(v).key_map().insert(sender@, viewing_key@)
            },
        },
{
    match msg {
        ExecuteMsg::SetSecret { secret, viewing_key } => {
            match v.set_secret(sender, secret, &viewing_key) {
                Ok(()) => Ok(ExecuteResponse::SecretStored),
                Err(e) => Err(e),
            }
        },
        ExecuteMsg::CreateViewingKey { entropy } => {
            let token = v.create_viewing_key(sender, entropy.as_str().as_bytes(), salt);
            Ok(ExecuteResponse::ViewingKeyCreated { viewing_key: token })
        },
    }
}

/// Dispatches a read-only request for the authenticated `sender` at
/// `unix_time`.
pub fn query(v: &Vault, sender: &String, unix_time: u64, msg: QueryMsg) -> (r: Result<
    QueryResponse,
    VaultError,
>)
    requires
        v.wf(),
    ensures
        match msg {
            QueryMsg::GetTOTP { viewing_key } => {
                match spec_get_totp(*v, sender@, viewing_key@, unix_time) {
                    Ok(code) => r matches Ok(resp) && resp matches QueryResponse::Totp {
                        code: c,
                    } && c@ == code,
                    Err(e) => r matches Err(e2) && e2 == e,
                }
            },
            QueryMsg::ExportSecret { viewing_key } => {
                match spec_export_secret(*v, sender@, viewing_key@) {
                    Ok(secret) => r matches Ok(resp) && resp matches QueryResponse::Secret {
                        secret: s,
                    } && s@ == secret,
                    Err(e) => r matches Err(e2) && e2 == e,
                }
            },
        },
{
    match msg {
        QueryMsg::GetTOTP { viewing_key } => {
            match v.get_totp(sender, &viewing_key, unix_time) {
                Ok(code) => Ok(QueryResponse::Totp { code }),
                Err(e) => Err(e),
            }
        },
        QueryMsg::ExportSecret { viewing_key } => {
            match v.export_secret(sender, &viewing_key) {
                Ok(secret) => Ok(QueryResponse::Secret { secret }),
                Err(e) => Err(e),
            }
        },
    }
}

} // verus!
