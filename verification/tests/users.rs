//! Tests of the user service: password hashing, login and token issuing.

use base64::Engine;
use capeos::error::AppError;
use capeos::jwt::{claims_at, JwtIssuer};
use capeos::users::{
    change_password, current_user, db_file_path, delete_user, hash_for_registration, jwks, login,
    register, user_status, LoginRequest, RegisterRequest,
};

fn b64(part: &str) -> String {
    let bytes = base64::engine::general_purpose::URL_SAFE_NO_PAD.decode(part).unwrap();
    String::from_utf8(bytes).unwrap()
}

#[test]
fn issued_tokens_have_header_and_claims() {
    let issuer = JwtIssuer::new().unwrap();
    let token = issuer.issue_token("alice \"a\"", 7).unwrap();
    let parts: Vec<&str> = token.split('.').collect();
    assert_eq!(parts.len(), 3);
    assert_eq!(b64(parts[0]), "{\"typ\":\"JWT\",\"alg\":\"ES256\"}");
    let claims: serde_json::Value = serde_json::from_str(&b64(parts[1])).unwrap();
    assert_eq!(claims["sub"], "alice \"a\"");
    assert_eq!(claims["id"], 7);
    let iat = claims["iat"].as_u64().unwrap();
    assert_eq!(claims["exp"].as_u64().unwrap(), iat + 3 * 3600);
}

#[test]
fn tokens_match_jsonwebtoken_framing() {
    let issuer = JwtIssuer::new().unwrap();
    let token = issuer.issue_token("bob", -3).unwrap();
    let claims_json = b64(token.split('.').nth(1).unwrap());
    assert!(claims_json.starts_with("{\"sub\":\"bob\",\"id\":-3,\"exp\":"));
}

#[test]
fn jwks_publishes_the_public_key() {
    let issuer = JwtIssuer::new().unwrap();
    let doc: serde_json::Value = serde_json::from_str(issuer.jwks_json()).unwrap();
    let key = &doc["keys"][0];
    assert_eq!(key["kty"], "EC");
    assert_eq!(key["crv"], "P-256");
    assert_eq!(key["alg"], "ES256");
    assert_eq!(key["use"], "sig");
    let x = base64::engine::general_purpose::URL_SAFE_NO_PAD.decode(key["x"].as_str().unwrap()).unwrap();
    assert_eq!(x.len(), 32);
    assert_eq!(jwks(&issuer), issuer.jwks_json());
    assert!(issuer.jwks_json().starts_with("{\"keys\":[{\"alg\":\"ES256\",\"crv\":\"P-256\",\"kty\":\"EC\",\"use\":\"sig\",\"x\":\""));
}

#[test]
fn claims_expire_after_three_hours() {
    let c = claims_at("u", 1, 1000).unwrap();
    assert_eq!((c.iat, c.exp), (1000, 1000 + 10800));
    assert!(claims_at("u", 1, usize::MAX - 5).is_none());
}

fn req(username: &str, password: &str) -> LoginRequest {
    LoginRequest { username: username.to_string(), password: password.to_string() }
}

#[test]
fn register_then_login() {
    let issuer = JwtIssuer::new().unwrap();
    let hash = hash_for_registration("s3cret").unwrap();
    assert!(hash.starts_with("$argon2"));
    let ok = login(&req("carol", "s3cret"), Some((5, hash.clone())), &issuer).unwrap();
    assert_eq!(ok.success, 200);
    assert_eq!(ok.data.unwrap().token.split('.').count(), 3);
    match login(&req("carol", "wrong"), Some((5, hash)), &issuer) {
        Err(AppError::Unauthorized(m)) => assert_eq!(m, "invalid credentials"),
        _ => panic!("expected unauthorized"),
    }
}

#[test]
fn login_errors() {
    let issuer = JwtIssuer::new().unwrap();
    match login(&req("nobody", "x"), None, &issuer) {
        Err(AppError::Unauthorized(m)) => assert_eq!(m, "invalid credentials"),
        _ => panic!("expected unauthorized"),
    }
    match login(&req("dave", "x"), Some((1, "not a hash".to_string())), &issuer) {
        Err(AppError::Internal(m)) => assert_eq!(m, "hash parse error"),
        _ => panic!("expected internal error"),
    }
}

#[test]
fn registration_answers() {
    let r = RegisterRequest { username: "erin".to_string(), password: "p".to_string() };
    let ok = register(&r, Ok(3)).unwrap();
    assert_eq!(ok.success, 201);
    let user = ok.data.unwrap();
    assert_eq!((user.id, user.username.as_str(), user.role.as_str()), (3, "erin", "user"));
    match register(&r, Err("UNIQUE constraint failed".to_string())) {
        Err(AppError::Internal(m)) => assert_eq!(m, "UNIQUE constraint failed"),
        _ => panic!("expected internal error"),
    }
}

#[test]
fn status_and_placeholders() {
    assert!(!user_status(None).data.unwrap().initialized);
    assert!(!user_status(Some(0)).data.unwrap().initialized);
    assert!(user_status(Some(2)).data.unwrap().initialized);
    assert_eq!(current_user().success, 200);
    assert_eq!(change_password().success, 200);
    assert_eq!(delete_user().success, 200);
    assert_eq!(db_file_path("/var/lib/capeos/db"), "/var/lib/capeos/db/capeos.db");
}

#[test]
fn issued_tokens_verify_under_the_published_key() {
    let issuer = JwtIssuer::new().unwrap();
    let token = issuer.issue_token("dave", 4).unwrap();
    let doc: serde_json::Value = serde_json::from_str(issuer.jwks_json()).unwrap();
    let x = doc["keys"][0]["x"].as_str().unwrap();
    let y = doc["keys"][0]["y"].as_str().unwrap();
    let key = jsonwebtoken::DecodingKey::from_ec_components(x, y).unwrap();
    let validation = jsonwebtoken::Validation::new(jsonwebtoken::Algorithm::ES256);
    let data = jsonwebtoken::decode::<serde_json::Value>(&token, &key, &validation).unwrap();
    assert_eq!(data.claims["sub"], "dave");
    assert_eq!(data.claims["id"], 4);
}

#[test]
fn tokens_issued_at_a_clock_reading() {
    let issuer = JwtIssuer::new().unwrap();
    let token = issuer.issue_token_at("erin", 2, Ok(1_700_000_000)).unwrap();
    let claims: serde_json::Value =
        serde_json::from_str(&b64(token.split('.').nth(1).unwrap())).unwrap();
    assert_eq!(claims["iat"], 1_700_000_000u64);
    assert_eq!(claims["exp"], 1_700_000_000u64 + 10800);
    let before_epoch = std::time::UNIX_EPOCH
        .duration_since(std::time::SystemTime::now())
        .map(|d| d.as_secs());
    assert!(issuer.issue_token_at("erin", 2, before_epoch).is_err());
    assert!(issuer.issue_token_at("erin", 2, Ok(u64::MAX)).is_err());
}

#[test]
fn each_issuer_draws_a_fresh_key() {
    let a = JwtIssuer::new().unwrap();
    let b = JwtIssuer::new().unwrap();
    assert_ne!(a.jwks_json(), b.jwks_json());
}

#[test]
fn login_at_a_clock_reading_issues_a_token_for_that_time() {
    let issuer = JwtIssuer::new().unwrap();
    let hash = hash_for_registration("pw").unwrap();
    let ok = capeos::users::login_at(&req("hal", "pw"), Some((8, hash.clone())), &issuer, Ok(2_000_000)).unwrap();
    assert_eq!((ok.success, ok.message.as_str()), (200, "ok"));
    let token = ok.data.unwrap().token;
    let claims: serde_json::Value =
        serde_json::from_str(&b64(token.split('.').nth(1).unwrap())).unwrap();
    assert_eq!(claims["iat"], 2_000_000u64);
    assert_eq!(claims["exp"], 2_000_000u64 + 10800);
    assert_eq!(claims["id"], 8);
    match capeos::users::login_at(&req("hal", "pw"), Some((8, hash)), &issuer, Ok(u64::MAX)) {
        Err(AppError::Internal(_)) => {}
        _ => panic!("expected an internal error for an unusable clock reading"),
    }
}

#[test]
fn registration_hashes_verify_and_differ_by_salt() {
    let a = hash_for_registration("same").unwrap();
    let b = hash_for_registration("same").unwrap();
    assert_ne!(a, b);
    let issuer = JwtIssuer::new().unwrap();
    assert!(login(&req("u", "same"), Some((1, a)), &issuer).is_ok());
}
