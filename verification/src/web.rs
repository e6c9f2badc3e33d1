//! The web front end's sign-in logic: the request it sends and what it does
//! with the answer.
use vstd::prelude::*;

use crate::json::{json_string, push_json_string};

verus! {

/// The local storage key the signed-in user's token is kept under.
pub const TOKEN_STORAGE_KEY: &'static str = "capeos_token";

/// The endpoint credentials are posted to.
pub const LOGIN_ENDPOINT: &'static str = "/v1/user_service/users/login";

/// The JSON body of a sign-in request, keys in the order `serde_json` sorts them.
pub open spec fn login_body(username: Seq<char>, password: Seq<char>) -> Seq<char> {
    "{\"password\":"@ + json_string(password) + ",\"username\":"@ + json_string(username) + "}"@
}

/// The JSON body of a sign-in request.
pub fn login_request_body(username: &str, password: &str) -> (r: String)
    ensures
        r@ == login_body(username@, password@),
{
    let mut s = String::from_str("{\"password\":");
    push_json_string(&mut s, password);
    s.append(",\"username\":");
    push_json_string(&mut s, username);
    s.append("}");
    s
}

/// The string a JSON text holds under key `inner` of the object under key
/// `outer`; none when the text is not JSON or holds no string there.
pub uninterp spec fn json_str_at_path(body: Seq<char>, outer: Seq<char>, inner: Seq<char>) -> Option<
    Seq<char>,
>;

/// Reads the string at `[outer][inner]` of a JSON text:
/// `serde_json::from_str` into a `Value`, indexing by the two keys, then
/// `Value::as_str`.
#[verifier::external_body]
fn json_str_at(body: &str, outer: &str, inner: &str) -> (r: Option<String>)
    ensures
        r matches Some(t) ==> json_str_at_path(body@, outer@, inner@) == Some(t@),
        r is None ==> json_str_at_path(body@, outer@, inner@) is None,
{
    let v: serde_json::Value = serde_json::from_str(body).ok()?;
    v[outer][inner].as_str().map(|t| t.to_string())
}

/// The token in a sign-in answer: the string at `data.token` of its JSON body.
pub open spec fn response_token(body: Seq<char>) -> Option<Seq<char>> {
    json_str_at_path(body, "data"@, "token"@)
}

/// What the sign-in page does after posting the credentials.
#[derive(Debug, Clone)]
pub enum LoginOutcome {
    /// Keep the token and go to the dashboard at `/`.
    SignedIn(String),
    /// Show this error message.
    Failed(String),
    /// Do nothing.
    Stay,
}

/// What the sign-in page does with the answer: `status_ok` tells whether the
/// request succeeded, `body` is the answer's text when it could be read. A
/// successful answer with a token signs in; one without leaves the page as
/// it is; an unsuccessful one shows `Login failed`.
pub fn login_outcome(status_ok: bool, body: Option<String>) -> (r: LoginOutcome)
    ensures
        !status_ok ==> (r matches LoginOutcome::Failed(m) && m@ == "Login failed"@),
        status_ok && (body matches Some(b) && response_token(b@) is Some) ==> (r matches LoginOutcome::SignedIn(t)
            && Some(t@) == response_token(body->Some_0@)),
        status_ok && !(body matches Some(b) && response_token(b@) is Some) ==> r is Stay,
{
    if !status_ok {
        return LoginOutcome::Failed(String::from_str("Login failed"));
    }
    match body {
        Some(b) => match json_str_at(b.as_str(), "data", "token") {
            Some(t) => LoginOutcome::SignedIn(t),
            None => LoginOutcome::Stay,
        },
        None => LoginOutcome::Stay,
    }
}

/// What the sign-in page does when the request could not be sent: show the error.
pub fn login_network_error(text: String) -> (r: LoginOutcome)
    ensures
        r matches LoginOutcome::Failed(m) && m == text,
{
    LoginOutcome::Failed(text)
}

} // verus!
