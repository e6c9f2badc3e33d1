//! Tests of token extraction and the authentication decision.

use capeos::auth::{
    accept_token, extract_token, jwks_key, jwt_auth, split_last_dot, token_from_header, token_from_query, token_payload,
};
use capeos::jwt::JwtIssuer;

fn now() -> u64 {
    std::time::SystemTime::now().duration_since(std::time::UNIX_EPOCH).unwrap().as_secs()
}

#[test]
fn bearer_header_token() {
    assert_eq!(extract_token(Some("Bearer abc.def"), None), Some("abc.def".to_string()));
}

#[test]
fn header_without_bearer_falls_back_to_query() {
    assert_eq!(extract_token(Some("Basic xyz"), Some("token=q1")), Some("q1".to_string()));
    assert_eq!(extract_token(Some("bearer abc"), None), None);
}

#[test]
fn header_takes_precedence_over_query() {
    assert_eq!(extract_token(Some("Bearer h"), Some("token=q")), Some("h".to_string()));
}

#[test]
fn query_token_is_first_matching_part() {
    assert_eq!(token_from_query("a=1&token=t1&token=t2"), Some("t1".to_string()));
    assert_eq!(token_from_query("token="), Some("".to_string()));
    assert_eq!(token_from_query("mytoken=x&b=2"), None);
    assert_eq!(token_from_query(""), None);
    assert_eq!(token_from_query("&&token=z"), Some("z".to_string()));
    assert_eq!(token_from_query("path=/a&token=x=y"), Some("x=y".to_string()));
}

#[test]
fn bearer_with_empty_token() {
    assert_eq!(token_from_header("Bearer "), Some("".to_string()));
    assert_eq!(token_from_header("Bearer"), None);
}

#[test]
fn requests_without_token_are_refused_with_401() {
    let issuer = JwtIssuer::new().unwrap();
    let jwks = issuer.jwks_json();
    assert_eq!(jwt_auth(false, None, None, jwks, now()), Err(401));
    assert_eq!(jwt_auth(false, None, Some("a=b"), jwks, now()), Err(401));
    assert_eq!(jwt_auth(false, Some("Token t"), None, jwks, now()), Err(401));
}

#[test]
fn tokens_that_do_not_verify_are_refused_with_401() {
    let issuer = JwtIssuer::new().unwrap();
    let jwks = issuer.jwks_json();
    assert_eq!(jwt_auth(false, None, Some("token=t"), jwks, now()), Err(401));
    assert_eq!(jwt_auth(false, Some("Bearer x.y.z"), None, jwks, now()), Err(401));
    let other = JwtIssuer::new().unwrap();
    let foreign = other.issue_token("eve", 9).unwrap();
    let header = format!("Bearer {}", foreign);
    assert_eq!(jwt_auth(false, Some(&header), None, jwks, now()), Err(401));
}

#[test]
fn issued_tokens_pass_under_the_published_key() {
    let issuer = JwtIssuer::new().unwrap();
    let token = issuer.issue_token("alice", 1).unwrap();
    let header = format!("Bearer {}", token);
    assert_eq!(jwt_auth(false, Some(&header), None, issuer.jwks_json(), now()), Ok(Some(token.clone())));
    let query = format!("token={}", token);
    assert_eq!(jwt_auth(false, None, Some(&query), issuer.jwks_json(), now()), Ok(Some(token.clone())));
    assert_eq!(jwt_auth(false, Some(&header), None, "", now()), Err(401));
    assert_eq!(jwt_auth(false, Some(&header), None, "{\"keys\":[]}", now()), Err(401));
}

#[test]
fn localhost_requests_skip_authentication() {
    assert_eq!(jwt_auth(true, None, None, "", now()), Ok(None));
    assert_eq!(jwt_auth(true, Some("Bearer x"), None, "", now()), Ok(Some("x".to_string())));
}

#[test]
fn jwks_key_reads_the_published_coordinates() {
    let issuer = JwtIssuer::new().unwrap();
    let doc: serde_json::Value = serde_json::from_str(issuer.jwks_json()).unwrap();
    let x = doc["keys"][0]["x"].as_str().unwrap().to_string();
    let y = doc["keys"][0]["y"].as_str().unwrap().to_string();
    assert_eq!(x.len(), 43);
    assert_eq!(y.len(), 43);
    assert_eq!(jwks_key(issuer.jwks_json()), Some((x, y)));
    let text = "{\"keys\":[{\"alg\":\"ES256\",\"crv\":\"P-256\",\"kty\":\"EC\",\"use\":\"sig\",\"x\":\"ab\",\"y\":\"cd\"}]}";
    assert_eq!(jwks_key(text), Some(("ab".to_string(), "cd".to_string())));
    assert_eq!(jwks_key(&text[..text.len() - 1]), None);
    assert_eq!(jwks_key("{\"keys\":[]}"), None);
    assert_eq!(jwks_key(""), None);
}

#[test]
fn tokens_split_at_their_last_dot() {
    assert_eq!(split_last_dot("a.b.c"), Some(("a.b".to_string(), "c".to_string())));
    assert_eq!(split_last_dot("a."), Some(("a".to_string(), "".to_string())));
    assert_eq!(split_last_dot("abc"), None);
}

#[test]
fn issued_token_payload_decodes_to_its_claims() {
    let issuer = JwtIssuer::new().unwrap();
    let token = issuer.issue_token_at("frank \"f\"", -2, Ok(1_700_000_000)).unwrap();
    let payload = token_payload(&token).unwrap();
    assert_eq!(
        String::from_utf8(payload).unwrap(),
        "{\"sub\":\"frank \\\"f\\\"\",\"id\":-2,\"exp\":1700010800,\"iat\":1700000000}"
    );
    assert_eq!(token_payload("a.b"), None);
    assert_eq!(token_payload("a.b.c.d"), None);
    assert_eq!(token_payload("a.!!.c"), None);
    assert_eq!(token_payload("a.eyJ9.c"), Some(b"{\"}".to_vec()));
}

#[test]
fn tampered_tokens_are_refused() {
    let issuer = JwtIssuer::new().unwrap();
    let token = issuer.issue_token("alice", 1).unwrap();
    let other = issuer.issue_token("mallory", 2).unwrap();
    let (head_and_payload, _) = token.rsplit_once('.').unwrap();
    let (_, other_sig) = other.rsplit_once('.').unwrap();
    let forged = format!("Bearer {}.{}", head_and_payload, other_sig);
    assert_eq!(jwt_auth(false, Some(&forged), None, issuer.jwks_json(), now()), Err(401));
}

#[test]
fn expired_tokens_are_refused_after_the_leeway() {
    let issuer = JwtIssuer::new().unwrap();
    let token = issuer.issue_token_at("gina", 3, Ok(1_000_000)).unwrap();
    let header = format!("Bearer {}", token);
    let exp = 1_000_000 + 10800;
    let jwks = issuer.jwks_json();
    assert_eq!(jwt_auth(false, Some(&header), None, jwks, 1_000_000), Ok(Some(token.clone())));
    assert_eq!(jwt_auth(false, Some(&header), None, jwks, exp + 60), Ok(Some(token.clone())));
    assert_eq!(jwt_auth(false, Some(&header), None, jwks, exp + 61), Err(401));
    assert!(accept_token(&token, "x", "y", 1_000_000) == false);
}
