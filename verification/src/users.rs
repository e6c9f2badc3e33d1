//! The user service: registration, login, status and the published keys.
use vstd::prelude::*;
use vstd::utf8::encode_utf8;
use argon2::{PasswordHasher, PasswordVerifier};

use crate::error::{anyhow_error_text, AppError, AppResult};
use crate::clock::{system_time_now, unix_seconds};
use crate::jwt::{
    base64url_nopad, claims_payload, es256_token, header_json, issued_signing_input,
    jwks_publishes, jwt_with_parts, JwtIssuer, TOKEN_LIFETIME_SECS,
};
use crate::response::ApiResponse;

verus! {

/// A registration request.
#[derive(Debug, Clone)]
pub struct RegisterRequest {
    pub username: String,
    pub password: String,
}

/// A login request.
#[derive(Debug, Clone)]
pub struct LoginRequest {
    pub username: String,
    pub password: String,
}

/// The token a successful login answers with.
#[derive(Debug, Clone)]
pub struct LoginResponse {
    pub token: String,
}

/// A registered user.
#[derive(Debug, Clone)]
pub struct UserInfo {
    pub id: i64,
    pub username: String,
    pub role: String,
}

/// Whether any user has been registered yet.
#[derive(Debug, Clone, Copy)]
pub struct UserStatus {
    pub initialized: bool,
}

/// The PHC string Argon2 (default parameters) makes of `password` with the
/// base64 salt `salt`; none when hashing fails.
pub uninterp spec fn argon2_phc_hash(password: Seq<u8>, salt: Seq<char>) -> Option<Seq<char>>;

/// Whether `stored` parses as a PHC password hash string.
pub uninterp spec fn phc_parses(stored: Seq<char>) -> bool;

/// Whether Argon2 accepts `password` against the PHC string `stored`.
pub uninterp spec fn argon2_accepts(password: Seq<u8>, stored: Seq<char>) -> bool;

/// The bytes a salt text stands for: password-hash's `Salt::from_b64` (4 to
/// 64 characters of the PHC salt alphabet) then `Salt::decode_b64` (standard
/// base64, no padding); none when either fails.
pub uninterp spec fn phc_salt_bytes(salt: Seq<char>) -> Option<Seq<u8>>;

/// A fresh random salt, base64 encoded: `SaltString::generate` with the
/// operating system's random source, which B64-encodes 16 random bytes.
/// Stated: the salt is 22 characters standing for 16 bytes; which bytes is
/// random.
#[verifier::external_body]
fn generate_salt() -> (r: String)
    ensures
        r@.len() == 22,
        phc_salt_bytes(r@) is Some,
        phc_salt_bytes(r@)->0.len() == 16,
{
    argon2::password_hash::SaltString::generate(&mut rand::rngs::OsRng).as_str().to_string()
}

/// Hashes `password` with Argon2 (default parameters) and the base64 salt
/// `salt` (`SaltString::from_b64`, then `PasswordHasher::hash_password`),
/// giving the PHC string or the error's text. Stated beyond the name: a hash
/// it produces parses, and verifies the same password; and with a salt that
/// stands for 8 to 48 bytes, hashing fails only for a password longer than
/// `MAX_PWD_LEN` (`0xFFFF_FFFF` bytes).
#[verifier::external_body]
fn argon2_hash(password: &[u8], salt: &str) -> (r: Result<String, String>)
    ensures
        r matches Ok(h) ==> argon2_phc_hash(password@, salt@) == Some(h@) && phc_parses(h@)
            && argon2_accepts(password@, h@),
        r is Err ==> argon2_phc_hash(password@, salt@) is None,
        r is Err ==> password@.len() > 0xFFFF_FFFF || !(phc_salt_bytes(salt@) matches Some(b) && 8
            <= b.len() <= 48),
{
    let salt = argon2::password_hash::SaltString::from_b64(salt).map_err(|e| e.to_string())?;
    argon2::Argon2::default().hash_password(password, &salt).map(|h| h.to_string()).map_err(
        |e| e.to_string(),
    )
}

/// Checks `password` against the PHC string `stored` with Argon2 (default
/// parameters): `PasswordHash::new`, then `PasswordVerifier::verify_password`.
/// An error when `stored` does not parse; otherwise whether it verifies.
#[verifier::external_body]
fn argon2_verify(password: &[u8], stored: &str) -> (r: Result<bool, ()>)
    ensures
        r is Err <==> !phc_parses(stored@),
        r matches Ok(b) ==> b == argon2_accepts(password@, stored@),
{
    let parsed = argon2::PasswordHash::new(stored).map_err(|_| ())?;
    Ok(argon2::Argon2::default().verify_password(password, &parsed).is_ok())
}

/// The outcome of checking a login's password.
pub enum PasswordCheck {
    /// No user with that name.
    NoSuchUser,
    /// The stored hash does not parse.
    BadHash,
    /// The password does not match.
    WrongPassword,
    /// The password matches.
    Accepted,
}

/// How a login's password check ends, given the stored hash of the user (none
/// when there is no such user) and the password's bytes.
pub open spec fn password_check(stored: Option<Seq<char>>, password: Seq<u8>) -> PasswordCheck {
    match stored {
        None => PasswordCheck::NoSuchUser,
        Some(h) => if !phc_parses(h) {
            PasswordCheck::BadHash
        } else if !argon2_accepts(password, h) {
            PasswordCheck::WrongPassword
        } else {
            PasswordCheck::Accepted
        },
    }
}

/// Law: a password hashed at registration is accepted at login.
pub proof fn law_registered_password_accepted(password: Seq<u8>, stored: Seq<char>)
    requires
        phc_parses(stored),
        argon2_accepts(password, stored),
    ensures
        password_check(Some(stored), password) is Accepted,
{
}

/// The hash stored for a new user's password: Argon2 with a fresh salt; an
/// internal error with the hasher's message when hashing fails.
pub fn hash_for_registration(password: &str) -> (r: AppResult<String>)
    ensures
        r matches Ok(h) ==> phc_parses(h@) && argon2_accepts(encode_utf8(password@), h@)
            && exists|salt: Seq<char>| #[trigger]
                argon2_phc_hash(encode_utf8(password@), salt) == Some(h@),
        r is Err ==> (r matches Err(AppError::Internal(_)) && exists|salt: Seq<char>| #[trigger]
            argon2_phc_hash(encode_utf8(password@), salt) is None),
        encode_utf8(password@).len() <= 0xFFFF_FFFF ==> r is Ok,
{
    let salt = generate_salt();
    match argon2_hash(password.as_bytes(), salt.as_str()) {
        Ok(h) => Ok(h),
        Err(text) => Err(AppError::Internal(text)),
    }
}

/// The answer to a registration stored under `id`: `201 created` with the
/// user, whose role is `user`.
pub fn registered(id: i64, username: String) -> (r: ApiResponse<UserInfo>)
    ensures
        r.success == 201,
        r.message@ == "created"@,
        r.data matches Some(u) && u.id == id && u.username == username && u.role@ == "user"@,
{
    ApiResponse::created(UserInfo { id, username, role: String::from_str("user") })
}

/// The answer to a registration, given what storing the user gave: the new
/// user's id, or the storage error's text, which is answered as an internal
/// error.
pub fn register(req: &RegisterRequest, stored: Result<i64, String>) -> (r: AppResult<
    ApiResponse<UserInfo>,
>)
    ensures
        stored matches Ok(id) ==> (r matches Ok(resp) && resp.success == 201 && resp.message@
            == "created"@ && (resp.data matches Some(
            u,
        ) && u.id == id && u.username@ == req.username@ && u.role@ == "user"@)),
        stored matches Err(m) ==> (r matches Err(AppError::Internal(e)) && e == m),
{
    match stored {
        Ok(id) => Ok(registered(id, req.username.clone())),
        Err(m) => Err(AppError::Internal(m)),
    }
}

/// Logs a user in. `stored` is the user's id and password hash, none when no
/// user has that name. Unknown users and wrong passwords are refused as
/// unauthorized, an unparsable stored hash is an internal error, and an
/// accepted password answers `200 ok` with a token signed for the user,
/// issued now.
pub fn login(req: &LoginRequest, stored: Option<(i64, String)>, jwt: &JwtIssuer) -> (r: AppResult<
    ApiResponse<LoginResponse>,
>)
    ensures
        ({
            let check = password_check(
                match stored {
                    Some(s) => Some(s.1@),
                    None => None,
                },
                encode_utf8(req.password@),
            );
            &&& (check is NoSuchUser || check is WrongPassword) ==> (r matches Err(
                AppError::Unauthorized(m),
            ) && m@ == "invalid credentials"@)
            &&& check is BadHash ==> (r matches Err(AppError::Internal(m)) && m@
                == "hash parse error"@)
            &&& check is Accepted ==> (r matches Ok(resp) ==> (resp.success == 200
                && resp.message@ == "ok"@ && (resp.data matches Some(l) && exists|iat: nat|
                es256_token(
                    l.token@,
                    #[trigger] issued_signing_input(req.username@, stored->Some_0.0 as int, iat),
                    jwt.verifying_key().0,
                    jwt.verifying_key().1,
                ))))
            &&& check is Accepted ==> (r is Ok || r matches Err(AppError::Internal(_)))
        }),
{
    login_at(req, stored, jwt, unix_seconds(system_time_now()))
}

/// Logs a user in at the clock reading `now` (whole seconds since the Unix
/// epoch, or the error of a reading earlier than the epoch). As `login`; an
/// accepted password answers `200 ok` with a token issued at `now`, expiring
/// three hours later, that verifies under the issuer's key, and is an
/// internal error only when the clock reading is unusable for a token.
pub fn login_at(
    req: &LoginRequest,
    stored: Option<(i64, String)>,
    jwt: &JwtIssuer,
    now: Result<u64, std::time::SystemTimeError>,
) -> (r: AppResult<ApiResponse<LoginResponse>>)
    ensures
        ({
            let check = password_check(
                match stored {
                    Some(s) => Some(s.1@),
                    None => None,
                },
                encode_utf8(req.password@),
            );
            &&& (check is NoSuchUser || check is WrongPassword) ==> (r matches Err(
                AppError::Unauthorized(m),
            ) && m@ == "invalid credentials"@)
            &&& check is BadHash ==> (r matches Err(AppError::Internal(m)) && m@
                == "hash parse error"@)
            &&& check is Accepted ==> (r matches Ok(resp) ==> (resp.success == 200
                && resp.message@ == "ok"@ && (resp.data matches Some(l) && (now matches Ok(secs)
                && es256_token(
                l.token@,
                issued_signing_input(req.username@, stored->Some_0.0 as int, secs as nat),
                jwt.verifying_key().0,
                jwt.verifying_key().1,
            ) && jwt_with_parts(
                l.token@,
                base64url_nopad(encode_utf8(header_json())),
                claims_payload(
                    req.username@,
                    stored->Some_0.0 as int,
                    secs as nat + TOKEN_LIFETIME_SECS as nat,
                    secs as nat,
                ),
            )))))
            &&& check is Accepted ==> (r is Ok || r matches Err(AppError::Internal(_)))
            &&& check is Accepted && (now matches Ok(secs) && secs as int + TOKEN_LIFETIME_SECS as int
                <= usize::MAX) ==> r is Ok
        }),
{
    match stored {
        None => Err(AppError::Unauthorized(String::from_str("invalid credentials"))),
        Some((id, hash)) => {
            match argon2_verify(req.password.as_str().as_bytes(), hash.as_str()) {
                Err(_) => Err(AppError::Internal(String::from_str("hash parse error"))),
                Ok(false) => Err(AppError::Unauthorized(String::from_str("invalid credentials"))),
                Ok(true) => match jwt.issue_token_at(req.username.as_str(), id, now) {
                    Ok(token) => Ok(ApiResponse::ok(LoginResponse { token })),
                    Err(e) => Err(AppError::Internal(anyhow_error_text(&e))),
                },
            }
        },
    }
}

/// Answers `200 ok` with whether any user exists, given the number of users
/// (none when it could not be counted, which counts as none).
pub fn user_status(count: Option<i64>) -> (r: ApiResponse<UserStatus>)
    ensures
        r.success == 200,
        r.message@ == "ok"@,
        r.data matches Some(s) && s.initialized == (count matches Some(c) && c > 0),
{
    let n = match count {
        Some(c) => c,
        None => 0,
    };
    ApiResponse::ok(UserStatus { initialized: n > 0 })
}

/// The current user's details: answered `200 ok` without data.
pub fn current_user() -> (r: ApiResponse<()>)
    ensures
        r.success == 200,
        r.message@ == "ok"@,
        r.data is None,
{
    ApiResponse::ok_empty()
}

/// Password change: answered `200 ok` without data.
pub fn change_password() -> (r: ApiResponse<()>)
    ensures
        r.success == 200,
        r.message@ == "ok"@,
        r.data is None,
{
    ApiResponse::ok_empty()
}

/// User deletion: answered `200 ok` without data.
pub fn delete_user() -> (r: ApiResponse<()>)
    ensures
        r.success == 200,
        r.message@ == "ok"@,
        r.data is None,
{
    ApiResponse::ok_empty()
}

/// The JWKS document publishing the issuer's public key.
pub fn jwks(jwt: &JwtIssuer) -> (r: String)
    ensures
        r@ == jwt.jwks(),
        jwks_publishes(r@, jwt.verifying_key().0, jwt.verifying_key().1),
{
    String::from_str(jwt.jwks_json())
}

/// The database file under the directory `db_path`.
pub fn db_file_path(db_path: &str) -> (r: String)
    ensures
        r@ == db_path@ + "/capeos.db"@,
{
    let mut s = String::from_str(db_path);
    s.append("/capeos.db");
    s
}

} // verus!
