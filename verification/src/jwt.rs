//! Issuing ES256 JSON Web Tokens and publishing the public key as a JWKS.
use vstd::prelude::*;
use vstd::utf8::encode_utf8;
use base64::Engine;
use p256::elliptic_curve::sec1::ToEncodedPoint;
use p256::pkcs8::EncodePrivateKey;

pub use crate::auth::Claims;
use crate::clock::{system_time_now, unix_seconds};
use crate::json::{is_plain_json_char, json_string, lemma_escape_plain, push_json_string};
use crate::text::{decimal, i64_to_decimal, signed_decimal, u64_to_decimal};

verus! {

/// A failure to sign a token.
#[verifier::external_type_specification]
#[verifier::external_body]
pub struct ExJwtError(jsonwebtoken::errors::Error);

/// The public key of the P-256 private scalar `secret` (big-endian bytes), as
/// its affine coordinates; none when `secret` is not a valid private scalar.
pub uninterp spec fn p256_public_coordinates(secret: Seq<u8>) -> Option<(Seq<u8>, Seq<u8>)>;

/// The PKCS#8 DER encoding of the P-256 private scalar `secret`; none when
/// `secret` is not a valid private scalar or the encoding fails.
pub uninterp spec fn p256_pkcs8_der(secret: Seq<u8>) -> Option<Seq<u8>>;

/// A fresh random P-256 private key (`SecretKey::random` with the operating
/// system's random source), as its 32-byte big-endian scalar
/// (`SecretKey::to_bytes`). Stated: the bytes are a valid private scalar, so
/// its public key exists. Nothing else is claimed: the key is random.
#[verifier::external_body]
fn random_secret_key() -> (r: Vec<u8>)
    ensures
        r@.len() == 32,
        p256_public_coordinates(r@) is Some,
{
    p256::SecretKey::random(&mut p256::elliptic_curve::rand_core::OsRng).to_bytes().to_vec()
}

/// The public key of a private scalar: `SecretKey::from_slice` then
/// `SecretKey::public_key`, returned as the `x` and `y` coordinates of its
/// uncompressed SEC1 encoding (`to_encoded_point(false)`); each is a 32-byte
/// field element. None when the bytes are not a valid scalar.
#[verifier::external_body]
fn public_coordinates(secret: &[u8]) -> (r: Option<(Vec<u8>, Vec<u8>)>)
    ensures
        r matches Some(c) ==> p256_public_coordinates(secret@) == Some((c.0@, c.1@)) && c.0@.len()
            == 32 && c.1@.len() == 32,
        r is None ==> p256_public_coordinates(secret@) is None,
{
    let key = p256::SecretKey::from_slice(secret).ok()?;
    let point = key.public_key().to_encoded_point(false);
    Some((point.x().unwrap().to_vec(), point.y().unwrap().to_vec()))
}

/// The PKCS#8 DER encoding of a private scalar: `SecretKey::from_slice` then
/// `EncodePrivateKey::to_pkcs8_der`; on failure, the error's text. Stated as
/// well: every valid scalar is encoded (its DER document is a few hundred
/// bytes, far below any length `der` refuses).
#[verifier::external_body]
fn private_key_pkcs8_der(secret: &[u8]) -> (r: Result<Vec<u8>, String>)
    ensures
        r matches Ok(d) ==> p256_pkcs8_der(secret@) == Some(d@),
        r is Err ==> p256_pkcs8_der(secret@) is None,
        r is Err ==> p256_public_coordinates(secret@) is None,
{
    match p256::SecretKey::from_slice(secret) {
        Ok(key) => match key.to_pkcs8_der() {
            Ok(doc) => Ok(doc.as_bytes().to_vec()),
            Err(e) => Err(e.to_string()),
        },
        Err(e) => Err(e.to_string()),
    }
}

/// The unpadded URL-safe base64 encoding of `bytes` (`URL_SAFE_NO_PAD` of the
/// `base64` crate).
pub uninterp spec fn base64url_nopad(bytes: Seq<u8>) -> Seq<char>;

/// A character of the URL-safe base64 alphabet: a letter, a digit, `-` or `_`.
pub open spec fn is_base64url_char(c: char) -> bool {
    ||| 0x41 <= c as u32 <= 0x5A
    ||| 0x61 <= c as u32 <= 0x7A
    ||| 0x30 <= c as u32 <= 0x39
    ||| c == '-'
    ||| c == '_'
}

/// Every character of `s` is of the URL-safe base64 alphabet.
pub open spec fn is_base64url(s: Seq<char>) -> bool {
    forall|i: int| 0 <= i < s.len() ==> #[trigger] is_base64url_char(s[i])
}

/// Encodes bytes as unpadded URL-safe base64: `URL_SAFE_NO_PAD.encode`, a
/// function of the bytes alone. Stated as well: the text has
/// `ceil(4n / 3)` characters for `n` bytes, all of the URL-safe alphabet.
#[verifier::external_body]
fn base64url_encode(bytes: &[u8]) -> (r: String)
    ensures
        r@ == base64url_nopad(bytes@),
        r@.len() == (4 * bytes@.len() + 2) / 3,
        is_base64url(r@),
{
    base64::engine::general_purpose::URL_SAFE_NO_PAD.encode(bytes)
}

/// The bytes an unpadded URL-safe base64 text decodes to (`URL_SAFE_NO_PAD`
/// of the `base64` crate); none when the text is not such an encoding.
pub uninterp spec fn base64url_nopad_decoded(text: Seq<char>) -> Option<Seq<u8>>;

/// Decodes unpadded URL-safe base64: `URL_SAFE_NO_PAD.decode`, none on an
/// error. Stated as well: the encoding of any bytes decodes back to them.
#[verifier::external_body]
pub(crate) fn base64url_decode(text: &str) -> (r: Option<Vec<u8>>)
    ensures
        r matches Some(b) ==> base64url_nopad_decoded(text@) == Some(b@),
        r is None ==> base64url_nopad_decoded(text@) is None,
        r is None ==> forall|b: Seq<u8>| #[trigger] base64url_nopad(b) != text@,
        r matches Some(d) ==> forall|b: Seq<u8>| #[trigger] base64url_nopad(b) == text@ ==> d@ == b,
{
    base64::engine::general_purpose::URL_SAFE_NO_PAD.decode(text).ok()
}

/// Whether `signature` is a valid signature of `message` with the JWS
/// algorithm named `alg` under the EC public key whose coordinates are the
/// base64url texts `x` and `y`: `jsonwebtoken::crypto::verify` with
/// `DecodingKey::from_ec_components(x, y)` answering `Ok(true)`; false when
/// `alg` names no algorithm or a coordinate is not base64url.
pub uninterp spec fn jws_signature_valid(
    alg: Seq<char>,
    signature: Seq<char>,
    message: Seq<u8>,
    x: Seq<char>,
    y: Seq<char>,
) -> bool;

/// Signs `message` with the JWS algorithm named `alg` (`Algorithm::from_str`)
/// and the EC private key given as PKCS#8 DER (`EncodingKey::from_ec_der`):
/// `jsonwebtoken::crypto::sign`. Stated: the signature is base64url text, and
/// an ES256 signature made with a P-256 private scalar's key verifies under
/// that scalar's public key (`crypto::verify`, same algorithm); and ES256
/// signing with the PKCS#8 DER of a valid P-256 scalar succeeds (ring's
/// `EcdsaKeyPair::from_pkcs8` accepts it; only a failure of the operating
/// system's random source, set aside like running out of memory, would stop
/// it). The signature itself is not stated: ECDSA signing draws a random nonce.
#[verifier::external_body]
fn jws_sign(alg: &str, message: &[u8], der: &[u8]) -> (r: Result<
    String,
    jsonwebtoken::errors::Error,
>)
    ensures
        r matches Ok(sig) ==> is_base64url(sig@),
        r is Err ==> !(alg@ == "ES256"@ && exists|secret: Seq<u8>|
            #[trigger] p256_pkcs8_der(secret) == Some(der@) && p256_public_coordinates(secret) is Some),
        r matches Ok(sig) ==> forall|secret: Seq<u8>|
            #[trigger] p256_pkcs8_der(secret) == Some(der@) && alg@ == "ES256"@ ==> (
            p256_public_coordinates(secret) matches Some(c) ==> jws_signature_valid(
                alg@,
                sig@,
                message@,
                base64url_nopad(c.0),
                base64url_nopad(c.1),
            )),
{
    match <jsonwebtoken::Algorithm as std::str::FromStr>::from_str(alg) {
        Ok(algorithm) => jsonwebtoken::crypto::sign(
            message,
            &jsonwebtoken::EncodingKey::from_ec_der(der),
            algorithm,
        ),
        Err(e) => Err(e),
    }
}

/// An `anyhow::Error` with the message `msg`: `anyhow::Error::msg`.
#[verifier::external_body]
fn anyhow_msg(msg: String) -> anyhow::Error {
    anyhow::Error::msg(msg)
}

/// A signing failure as an `anyhow::Error` (`anyhow::Error::from`).
#[verifier::external_body]
fn anyhow_from_jwt_error(e: jsonwebtoken::errors::Error) -> anyhow::Error {
    anyhow::Error::from(e)
}

/// A clock failure as an `anyhow::Error` (`anyhow::Error::from`).
#[verifier::external_body]
fn anyhow_from_time_error(e: std::time::SystemTimeError) -> anyhow::Error {
    anyhow::Error::from(e)
}

/// How long an issued token is valid: three hours.
pub const TOKEN_LIFETIME_SECS: usize = 10800;

/// The JOSE header of an ES256 token, as `serde_json` writes `Header::new(ES256)`.
pub open spec fn header_json() -> Seq<char> {
    "{\"typ\":\"JWT\",\"alg\":\"ES256\"}"@
}

/// The JSON text of a token's claims, fields in declaration order.
pub open spec fn claims_json(sub: Seq<char>, id: int, exp: nat, iat: nat) -> Seq<char> {
    "{\"sub\":"@ + json_string(sub) + ",\"id\":"@ + signed_decimal(id) + ",\"exp\":"@ + decimal(
        exp,
    ) + ",\"iat\":"@ + decimal(iat) + "}"@
}

/// The signed part of a token: the base64url header and claims, joined by a dot.
pub open spec fn signing_input(sub: Seq<char>, id: int, exp: nat, iat: nat) -> Seq<char> {
    base64url_nopad(encode_utf8(header_json())) + "."@ + base64url_nopad(
        encode_utf8(claims_json(sub, id, exp, iat)),
    )
}

/// The signing input of a token issued at `iat` to `sub` with id `id`.
pub open spec fn issued_signing_input(sub: Seq<char>, id: int, iat: nat) -> Seq<char> {
    signing_input(sub, id, iat + TOKEN_LIFETIME_SECS as nat, iat)
}

/// `token` is `input`, a dot and a base64url signature that verifies, as an
/// ES256 signature of the UTF-8 bytes of `input`, under the EC public key
/// with base64url coordinates `x` and `y`.
pub open spec fn es256_token(token: Seq<char>, input: Seq<char>, x: Seq<char>, y: Seq<char>) -> bool {
    exists|sig: Seq<char>|
        is_base64url(sig) && token == input + "."@ + sig && #[trigger] jws_signature_valid(
            "ES256"@,
            sig,
            encode_utf8(input),
            x,
            y,
        )
}

/// `t` is three parts holding no dot, joined by dots: a JWT's header,
/// payload and signature.
pub open spec fn token_parts(t: Seq<char>, h: Seq<char>, p: Seq<char>, s: Seq<char>) -> bool {
    &&& t == h + "."@ + p + "."@ + s
    &&& !h.contains('.')
    &&& !p.contains('.')
    &&& !s.contains('.')
}

/// `t` is a JWT whose header part is `h` and whose payload part is `p`.
pub open spec fn jwt_with_parts(t: Seq<char>, h: Seq<char>, p: Seq<char>) -> bool {
    exists|s: Seq<char>| #[trigger] token_parts(t, h, p, s)
}

/// The payload part of a token signed over the claims `sub`, `id`, `exp` and
/// `iat`: the base64url encoding of the claims' JSON text.
pub open spec fn claims_payload(sub: Seq<char>, id: int, exp: nat, iat: nat) -> Seq<char> {
    base64url_nopad(encode_utf8(claims_json(sub, id, exp, iat)))
}

/// Base64url text holds no dot.
pub proof fn lemma_base64url_no_dot(s: Seq<char>)
    requires
        is_base64url(s),
    ensures
        !s.contains('.'),
{
    if s.contains('.') {
        let k = choose|k: int| 0 <= k < s.len() && s[k] == '.';
        assert(is_base64url_char(s[k]));
    }
}

/// `token` verifies with the JWS algorithm named `alg` under the EC public key
/// with base64url coordinates `x` and `y`: it is a message, a dot and a
/// signature holding no dot, valid for the UTF-8 bytes of the message.
pub open spec fn token_verifies(alg: Seq<char>, token: Seq<char>, x: Seq<char>, y: Seq<char>) -> bool {
    exists|m: Seq<char>, s: Seq<char>|
        token == m + "."@ + s && !s.contains('.') && #[trigger] jws_signature_valid(
            alg,
            s,
            encode_utf8(m),
            x,
            y,
        )
}

/// Law: an ES256 token for any signing input verifies as an ES256 token under
/// the same key.
pub proof fn law_es256_token_verifies(token: Seq<char>, input: Seq<char>, x: Seq<char>, y: Seq<char>)
    requires
        es256_token(token, input, x, y),
    ensures
        token_verifies("ES256"@, token, x, y),
{
    let sig = choose|sig: Seq<char>|
        is_base64url(sig) && token == input + "."@ + sig && #[trigger] jws_signature_valid(
            "ES256"@,
            sig,
            encode_utf8(input),
            x,
            y,
        );
    if sig.contains('.') {
        let k = choose|k: int| 0 <= k < sig.len() && sig[k] == '.';
        assert(is_base64url_char(sig[k]));
    }
}

/// The text of a JWKS document before the `x` coordinate.
pub open spec fn jwks_head() -> Seq<char> {
    "{\"keys\":[{\"alg\":\"ES256\",\"crv\":\"P-256\",\"kty\":\"EC\",\"use\":\"sig\",\"x\":\""@
}

/// The text of a JWKS document between the `x` and `y` coordinates.
pub open spec fn jwks_middle() -> Seq<char> {
    "\",\"y\":\""@
}

/// The text of a JWKS document after the `y` coordinate.
pub open spec fn jwks_tail() -> Seq<char> {
    "\"}]}"@
}

/// `t` is the JWKS document publishing the ES256 key with base64url
/// coordinates `x` and `y` (neither holding a quote), as the issuer writes it.
pub open spec fn jwks_publishes(t: Seq<char>, x: Seq<char>, y: Seq<char>) -> bool {
    &&& !x.contains('"')
    &&& !y.contains('"')
    &&& t == jwks_head() + x + jwks_middle() + y + jwks_tail()
}

/// Base64url text is written in JSON as it is.
pub proof fn lemma_base64url_plain(s: Seq<char>)
    requires
        is_base64url(s),
    ensures
        json_string(s) == seq!['"'] + s + seq!['"'],
        !s.contains('"'),
{
    assert forall|i: int| 0 <= i < s.len() implies #[trigger] is_plain_json_char(s[i]) by {
        assert(is_base64url_char(s[i]));
    }
    lemma_escape_plain(s);
    if s.contains('"') {
        let k = choose|k: int| 0 <= k < s.len() && s[k] == '"';
        assert(is_base64url_char(s[k]));
    }
}

/// Law: the JWKS document of a key with base64url coordinates publishes
/// exactly those coordinates.
pub proof fn law_jwks_publishes_key(x: Seq<u8>, y: Seq<u8>)
    requires
        is_base64url(base64url_nopad(x)),
        is_base64url(base64url_nopad(y)),
    ensures
        jwks_publishes(jwks_json_spec(x, y), base64url_nopad(x), base64url_nopad(y)),
{
    lemma_base64url_plain(base64url_nopad(x));
    lemma_base64url_plain(base64url_nopad(y));
    reveal_strlit("{\"keys\":[{\"alg\":\"ES256\",\"crv\":\"P-256\",\"kty\":\"EC\",\"use\":\"sig\",\"x\":");
    reveal_strlit("{\"keys\":[{\"alg\":\"ES256\",\"crv\":\"P-256\",\"kty\":\"EC\",\"use\":\"sig\",\"x\":\"");
    reveal_strlit(",\"y\":");
    reveal_strlit("\",\"y\":\"");
    reveal_strlit("}]}");
    reveal_strlit("\"}]}");
    assert(jwks_json_spec(x, y) =~= jwks_head() + base64url_nopad(x) + jwks_middle()
        + base64url_nopad(y) + jwks_tail());
}

/// Law: a JWKS document publishes one key only: the coordinates it publishes
/// are determined by its text.
pub proof fn law_jwks_key_unique(
    t: Seq<char>,
    x1: Seq<char>,
    y1: Seq<char>,
    x2: Seq<char>,
    y2: Seq<char>,
)
    requires
        jwks_publishes(t, x1, y1),
        jwks_publishes(t, x2, y2),
    ensures
        x1 == x2,
        y1 == y2,
{
    reveal_strlit("\",\"y\":\"");
    let h = jwks_head();
    let a = x1 + jwks_middle() + y1 + jwks_tail();
    let b = x2 + jwks_middle() + y2 + jwks_tail();
    assert(t =~= h + a);
    assert(t =~= h + b);
    assert(a =~= t.skip(h.len() as int));
    assert(b =~= t.skip(h.len() as int));
    if x1.len() < x2.len() {
        assert(a[x1.len() as int] == '"');
        assert(b[x1.len() as int] == x2[x1.len() as int]);
        assert(x2.contains('"'));
    } else if x2.len() < x1.len() {
        assert(b[x2.len() as int] == '"');
        assert(a[x2.len() as int] == x1[x2.len() as int]);
        assert(x1.contains('"'));
    }
    assert(x1 =~= a.take(x1.len() as int));
    assert(x2 =~= b.take(x2.len() as int));
    let k: int = (x1.len() + jwks_middle().len()) as int;
    assert(y1 + jwks_tail() =~= a.skip(k));
    assert(y2 + jwks_tail() =~= b.skip(k));
    assert(y1 =~= (y1 + jwks_tail()).take(y1.len() as int));
    assert(y2 =~= (y2 + jwks_tail()).take(y2.len() as int));
}

/// The JSON Web Key Set publishing a P-256 public key with coordinates `x`
/// and `y`, keys in the order `serde_json` sorts them.
pub open spec fn jwks_json_spec(x: Seq<u8>, y: Seq<u8>) -> Seq<char> {
    "{\"keys\":[{\"alg\":\"ES256\",\"crv\":\"P-256\",\"kty\":\"EC\",\"use\":\"sig\",\"x\":"@
        + json_string(base64url_nopad(x)) + ",\"y\":"@ + json_string(base64url_nopad(y))
        + "}]}"@
}

/// The JSON text of the claims.
pub fn claims_to_json(claims: &Claims) -> (r: String)
    ensures
        r@ == claims_json(claims.sub@, claims.id as int, claims.exp as nat, claims.iat as nat),
{
    let mut s = String::from_str("{\"sub\":");
    push_json_string(&mut s, claims.sub.as_str());
    s.append(",\"id\":");
    let id = i64_to_decimal(claims.id);
    s.append(id.as_str());
    s.append(",\"exp\":");
    let exp = u64_to_decimal(claims.exp as u64);
    s.append(exp.as_str());
    s.append(",\"iat\":");
    let iat = u64_to_decimal(claims.iat as u64);
    s.append(iat.as_str());
    s.append("}");
    s
}

/// The JWKS document for public key coordinates already base64url encoded.
pub fn jwks_document(x_b64: &str, y_b64: &str) -> (r: String)
    ensures
        r@ == "{\"keys\":[{\"alg\":\"ES256\",\"crv\":\"P-256\",\"kty\":\"EC\",\"use\":\"sig\",\"x\":"@
            + json_string(x_b64@) + ",\"y\":"@ + json_string(y_b64@) + "}]}"@,
{
    let mut s = String::from_str(
        "{\"keys\":[{\"alg\":\"ES256\",\"crv\":\"P-256\",\"kty\":\"EC\",\"use\":\"sig\",\"x\":",
    );
    push_json_string(&mut s, x_b64);
    s.append(",\"y\":");
    push_json_string(&mut s, y_b64);
    s.append("}]}");
    s
}

/// The claims of a token issued at `now` to `username` with id `user_id`:
/// expiring three hours later, none when that time does not fit.
pub fn claims_at(username: &str, user_id: i64, now: usize) -> (r: Option<Claims>)
    ensures
        now as int + TOKEN_LIFETIME_SECS as int <= usize::MAX ==> (r matches Some(c) && c.sub@
            == username@ && c.id == user_id && c.iat == now && c.exp == now + TOKEN_LIFETIME_SECS),
        now as int + TOKEN_LIFETIME_SECS as int > usize::MAX ==> r is None,
{
    match now.checked_add(TOKEN_LIFETIME_SECS) {
        Some(exp) => Some(Claims { sub: String::from_str(username), id: user_id, exp, iat: now }),
        None => None,
    }
}

/// Issues ES256 tokens and publishes the matching public key.
pub struct JwtIssuer {
    signing_der: Vec<u8>,
    jwks_json: String,
    secret: Ghost<Seq<u8>>,
}

impl JwtIssuer {
    /// The JWKS document the issuer publishes.
    pub closed spec fn jwks(&self) -> Seq<char> {
        self.jwks_json@
    }

    /// The issuer's P-256 private scalar.
    pub closed spec fn secret_key(&self) -> Seq<u8> {
        self.secret@
    }

    /// The PKCS#8 DER encoding of the private key tokens are signed with.
    pub closed spec fn signing_der(&self) -> Seq<u8> {
        self.signing_der@
    }

    /// The affine coordinates of the issuer's public key.
    pub closed spec fn public_key(&self) -> (Seq<u8>, Seq<u8>) {
        match p256_public_coordinates(self.secret@) {
            Some(c) => c,
            None => (Seq::empty(), Seq::empty()),
        }
    }

    /// The base64url coordinates of the issuer's public key, as published.
    pub open spec fn verifying_key(&self) -> (Seq<char>, Seq<char>) {
        (base64url_nopad(self.public_key().0), base64url_nopad(self.public_key().1))
    }

    /// The signing key, the published document and the public key all belong
    /// to one private scalar.
    #[verifier::type_invariant]
    spec fn keys_agree(&self) -> bool {
        &&& p256_public_coordinates(self.secret@) is Some
        &&& p256_pkcs8_der(self.secret@) == Some(self.signing_der@)
        &&& self.jwks_json@ == jwks_json_spec(self.public_key().0, self.public_key().1)
        &&& is_base64url(self.verifying_key().0)
        &&& is_base64url(self.verifying_key().1)
    }

    /// Creates an issuer with a fresh random P-256 key, and the JWKS document
    /// publishing its public key, each coordinate 43 base64url characters.
    /// Every valid key is encoded as PKCS#8, so it always succeeds.
    pub fn new() -> (r: Result<Self, anyhow::Error>)
        ensures
            r matches Ok(issuer) ==> {
                &&& p256_public_coordinates(issuer.secret_key()) == Some(issuer.public_key())
                &&& p256_pkcs8_der(issuer.secret_key()) == Some(issuer.signing_der())
                &&& issuer.jwks() == jwks_json_spec(issuer.public_key().0, issuer.public_key().1)
                &&& jwks_publishes(issuer.jwks(), issuer.verifying_key().0, issuer.verifying_key().1)
                &&& issuer.verifying_key().0.len() == 43
                &&& issuer.verifying_key().1.len() == 43
            },
            r is Ok,
    {
        let secret = random_secret_key();
        let coords = public_coordinates(secret.as_slice());
        let (x, y) = match coords {
            Some(c) => c,
            None => {
                assert(false);
                return Err(anyhow_msg(String::from_str("invalid private key")));
            },
        };
        let xs = base64url_encode(x.as_slice());
        let ys = base64url_encode(y.as_slice());
        let jwks_json = jwks_document(xs.as_str(), ys.as_str());
        assert(jwks_json@ == jwks_json_spec(x@, y@));
        match private_key_pkcs8_der(secret.as_slice()) {
            Ok(der) => {
                proof {
                    law_jwks_publishes_key(x@, y@);
                }
                Ok(JwtIssuer { signing_der: der, jwks_json, secret: Ghost(secret@) })
            },
            Err(text) => {
                let mut msg = String::from_str("pkcs8 error: ");
                msg.append(text.as_str());
                Err(anyhow_msg(msg))
            },
        }
    }

    /// The JWKS document publishing the issuer's public key.
    pub fn jwks_json(&self) -> (r: &str)
        ensures
            r@ == self.jwks(),
            jwks_publishes(r@, self.verifying_key().0, self.verifying_key().1),
    {
        proof {
            use_type_invariant(self);
            law_jwks_publishes_key(self.public_key().0, self.public_key().1);
        }
        self.jwks_json.as_str()
    }

    /// Encodes and signs `claims` with ES256: the token is the signing input,
    /// a dot and a signature of it that verifies under the issuer's public key.
    pub fn encode_claims(&self, claims: &Claims) -> (r: Result<String, anyhow::Error>)
        ensures
            r matches Ok(t) ==> es256_token(
                t@,
                signing_input(claims.sub@, claims.id as int, claims.exp as nat, claims.iat as nat),
                self.verifying_key().0,
                self.verifying_key().1,
            ),
            r matches Ok(t) ==> jwt_with_parts(
                t@,
                base64url_nopad(encode_utf8(header_json())),
                claims_payload(claims.sub@, claims.id as int, claims.exp as nat, claims.iat as nat),
            ),
            r is Ok,
    {
        proof {
            use_type_invariant(self);
        }
        let header = String::from_str("{\"typ\":\"JWT\",\"alg\":\"ES256\"}");
        let body = claims_to_json(claims);
        let mut message = base64url_encode(header.as_str().as_bytes());
        message.append(".");
        let encoded_body = base64url_encode(body.as_str().as_bytes());
        message.append(encoded_body.as_str());
        let alg = "ES256";
        proof { reveal_strlit("ES256"); }
        match jws_sign(alg, message.as_str().as_bytes(), self.signing_der.as_slice()) {
            Ok(sig) => {
                let ghost input = message@;
                let mut token = message;
                proof { reveal_strlit("."); }
                token.append(".");
                token.append(sig.as_str());
                proof {
                    let s = self.secret@;
                    assert(p256_pkcs8_der(s) == Some(self.signing_der@));
                    assert(jws_signature_valid(
                        "ES256"@,
                        sig@,
                        encode_utf8(input),
                        self.verifying_key().0,
                        self.verifying_key().1,
                    ));
                    assert(token@ =~= input + "."@ + sig@);
                    lemma_base64url_no_dot(sig@);
                    lemma_base64url_no_dot(encoded_body@);
                    assert(header@ == header_json());
                    lemma_base64url_no_dot(base64url_nopad(encode_utf8(header_json())));
                    assert(token@ =~= base64url_nopad(encode_utf8(header_json())) + "."@
                        + encoded_body@ + "."@ + sig@);
                    assert(encoded_body@ == claims_payload(
                        claims.sub@,
                        claims.id as int,
                        claims.exp as nat,
                        claims.iat as nat,
                    ));
                    assert(token_parts(
                        token@,
                        base64url_nopad(encode_utf8(header_json())),
                        claims_payload(
                            claims.sub@,
                            claims.id as int,
                            claims.exp as nat,
                            claims.iat as nat,
                        ),
                        sig@,
                    ));
                }
                Ok(token)
            },
            Err(e) => Err(anyhow_from_jwt_error(e)),
        }
    }

    /// Issues a token for `username` with id `user_id`, valid for three hours
    /// from now, signed so that it verifies under the issuer's public key.
    /// Fails when the clock reads earlier than the Unix epoch, when the expiry
    /// time does not fit, or when signing fails.
    pub fn issue_token(&self, username: &str, user_id: i64) -> (r: Result<String, anyhow::Error>)
        ensures
            r matches Ok(t) ==> exists|iat: nat|
                es256_token(
                    t@,
                    #[trigger] issued_signing_input(username@, user_id as int, iat),
                    self.verifying_key().0,
                    self.verifying_key().1,
                ),
            r matches Ok(t) ==> token_verifies(
                "ES256"@,
                t@,
                self.verifying_key().0,
                self.verifying_key().1,
            ),
            r matches Ok(t) ==> exists|iat: nat|
                jwt_with_parts(
                    t@,
                    base64url_nopad(encode_utf8(header_json())),
                    #[trigger] claims_payload(
                        username@,
                        user_id as int,
                        iat + TOKEN_LIFETIME_SECS as nat,
                        iat,
                    ),
                ),
    {
        let r = self.issue_token_at(username, user_id, unix_seconds(system_time_now()));
        proof {
            if r is Ok {
                let t = r->Ok_0;
                let iat = choose|iat: nat|
                    es256_token(
                        t@,
                        #[trigger] issued_signing_input(username@, user_id as int, iat),
                        self.verifying_key().0,
                        self.verifying_key().1,
                    );
                law_es256_token_verifies(
                    t@,
                    issued_signing_input(username@, user_id as int, iat),
                    self.verifying_key().0,
                    self.verifying_key().1,
                );
            }
        }
        r
    }

    /// Issues a token for `username` with id `user_id` at the clock reading
    /// `now` (whole seconds since the Unix epoch, or the error of a clock
    /// reading earlier than the epoch): issued at `now`, expiring three hours
    /// later, signed so that it verifies under the issuer's public key. The
    /// clock error, an expiry time that does not fit, and a signing failure
    /// are errors.
    pub fn issue_token_at(
        &self,
        username: &str,
        user_id: i64,
        now: Result<u64, std::time::SystemTimeError>,
    ) -> (r: Result<String, anyhow::Error>)
        ensures
            now is Err ==> r is Err,
            now matches Ok(s) && s as int + TOKEN_LIFETIME_SECS as int > usize::MAX ==> r is Err,
            now matches Ok(s) && s as int + TOKEN_LIFETIME_SECS as int <= usize::MAX ==> r is Ok,
            now matches Ok(s) ==> (r matches Ok(t) ==> es256_token(
                t@,
                issued_signing_input(username@, user_id as int, s as nat),
                self.verifying_key().0,
                self.verifying_key().1,
            )),
            now matches Ok(s) ==> (r matches Ok(t) ==> jwt_with_parts(
                t@,
                base64url_nopad(encode_utf8(header_json())),
                claims_payload(
                    username@,
                    user_id as int,
                    s as nat + TOKEN_LIFETIME_SECS as nat,
                    s as nat,
                ),
            )),
    {
        let secs = match now {
            Ok(s) => s,
            Err(e) => {
                return Err(anyhow_from_time_error(e));
            },
        };
        if secs > usize::MAX as u64 {
            return Err(anyhow_msg(String::from_str("token expiry out of range")));
        }
        let iat = secs as usize;
        match claims_at(username, user_id, iat) {
            Some(claims) => {
                let r = self.encode_claims(&claims);
                proof {
                    if r is Ok {
                        let t = r->Ok_0;
                        assert(claims_payload(claims.sub@, claims.id as int, claims.exp as nat, claims.iat as nat)
                            == claims_payload(
                            username@,
                            user_id as int,
                            secs as nat + TOKEN_LIFETIME_SECS as nat,
                            secs as nat,
                        ));
                        let sig = choose|sig: Seq<char>|
                            #[trigger] token_parts(
                                t@,
                                base64url_nopad(encode_utf8(header_json())),
                                claims_payload(claims.sub@, claims.id as int, claims.exp as nat, claims.iat as nat),
                                sig,
                            );
                        assert(token_parts(
                            t@,
                            base64url_nopad(encode_utf8(header_json())),
                            claims_payload(
                                username@,
                                user_id as int,
                                secs as nat + TOKEN_LIFETIME_SECS as nat,
                                secs as nat,
                            ),
                            sig,
                        ));
                    }
                }
                r
            },
            None => Err(anyhow_msg(String::from_str("token expiry out of range"))),
        }
    }
}

} // verus!
