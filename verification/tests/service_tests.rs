//! Tests of the service facade: one handler per message variant over the
//! vault, with the caller identity, salt and clock handed in.

use totp_vault::service::{
    execute, instantiate, query, ExecuteMsg, ExecuteResponse, InstantiateMsg, QueryMsg,
    QueryResponse,
};
use totp_vault::vault::VaultError;

#[test]
fn full_flow_through_the_facade() {
    let mut v = instantiate(InstantiateMsg { prng_seed: b"seed".to_vec() });
    let alice = "alice".to_string();

    let r = execute(&mut v, &alice, b"salt", ExecuteMsg::CreateViewingKey {
        entropy: "entropy".to_string(),
    });
    let token = match r {
        Ok(ExecuteResponse::ViewingKeyCreated { viewing_key }) => viewing_key,
        _ => panic!("expected a viewing key"),
    };

    let r = execute(&mut v, &alice, b"salt", ExecuteMsg::SetSecret {
        secret: "12345678901234567890".to_string(),
        viewing_key: token.clone(),
    });
    assert!(matches!(r, Ok(ExecuteResponse::SecretStored)));

    let r = query(&v, &alice, 59, QueryMsg::GetTOTP { viewing_key: token.clone() });
    match r {
        Ok(QueryResponse::Totp { code }) => assert_eq!(code, "287082"),
        _ => panic!("expected a code"),
    }

    let r = query(&v, &alice, 59, QueryMsg::ExportSecret { viewing_key: token });
    match r {
        Ok(QueryResponse::Secret { secret }) => assert_eq!(secret, "12345678901234567890"),
        _ => panic!("expected the secret"),
    }
}

#[test]
fn facade_refuses_an_unauthorized_caller() {
    let mut v = instantiate(InstantiateMsg { prng_seed: b"seed".to_vec() });
    let alice = "alice".to_string();

    let r = execute(&mut v, &alice, b"salt", ExecuteMsg::SetSecret {
        secret: "x".to_string(),
        viewing_key: "guess".to_string(),
    });
    assert!(matches!(r, Err(VaultError::NoViewingKey)));

    let r = query(&v, &alice, 0, QueryMsg::GetTOTP { viewing_key: "guess".to_string() });
    assert!(matches!(r, Err(VaultError::NoViewingKey)));

    let r = execute(&mut v, &alice, b"salt", ExecuteMsg::CreateViewingKey {
        entropy: "entropy".to_string(),
    });
    assert!(r.is_ok());

    let r = query(&v, &alice, 0, QueryMsg::ExportSecret { viewing_key: "guess".to_string() });
    assert!(matches!(r, Err(VaultError::InvalidViewingKey)));
}
