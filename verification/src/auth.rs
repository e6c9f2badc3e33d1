//! JWT authentication: where a request's token is taken from, and whether the
//! request is let through.
use vstd::prelude::*;
use vstd::utf8::encode_utf8;

use crate::jwt::{
    base64url_decode, base64url_nopad, base64url_nopad_decoded, jwks_head, jwks_middle,
    jwks_publishes, jwks_tail, jws_signature_valid, jwt_with_parts, law_jwks_key_unique,
    token_parts, token_verifies,
};
use crate::text::{char_len, has_prefix, strip_prefix, substring};

verus! {

/// Claims carried by the tokens the services accept.
#[derive(Debug, Clone)]
pub struct Claims {
    pub sub: String,
    pub id: i64,
    pub exp: usize,
    pub iat: usize,
}

/// The token of an `Authorization` header value: what follows `Bearer `.
pub open spec fn header_token(h: Seq<char>) -> Option<Seq<char>> {
    if "Bearer "@.is_prefix_of(h) {
        Some(h.skip("Bearer "@.len() as int))
    } else {
        None
    }
}

/// The index of the first `&` of `s`, or its length when there is none.
pub open spec fn first_amp(s: Seq<char>) -> nat
    decreases s.len(),
{
    if s.len() == 0 {
        0
    } else if s[0] == '&' {
        0
    } else {
        1 + first_amp(s.drop_first())
    }
}

/// The token of a query string: the value of the first `&`-separated part
/// that starts with `token=`.
pub open spec fn query_token(q: Seq<char>) -> Option<Seq<char>>
    decreases q.len(),
{
    let e = first_amp(q);
    let part = q.take(e as int);
    if "token="@.is_prefix_of(part) {
        Some(part.skip("token="@.len() as int))
    } else if e < q.len() {
        query_token(q.skip(e as int + 1))
    } else {
        None
    }
}

/// The token of a request: the bearer token of its `Authorization` header
/// when there is one, else the `token` parameter of its query string.
pub open spec fn request_token(header: Option<Seq<char>>, query: Option<Seq<char>>) -> Option<
    Seq<char>,
> {
    match header {
        Some(h) if header_token(h) is Some => header_token(h),
        _ => match query {
            Some(q) => query_token(q),
            None => None,
        },
    }
}

/// The characters of an optional string.
pub open spec fn str_view(o: Option<&str>) -> Option<Seq<char>> {
    match o {
        Some(s) => Some(s@),
        None => None,
    }
}

proof fn lemma_first_amp(s: Seq<char>, j: int)
    requires
        0 <= j <= s.len(),
        forall|k: int| 0 <= k < j ==> s[k] != '&',
        j == s.len() || s[j] == '&',
    ensures
        first_amp(s) == j,
    decreases j,
{
    if j > 0 {
        lemma_first_amp(s.drop_first(), j - 1);
    }
}

/// Law: a bearer token in the `Authorization` header is the request's token,
/// whatever the query string holds.
pub proof fn law_bearer_header_wins(h: Seq<char>, query: Option<Seq<char>>)
    requires
        "Bearer "@.is_prefix_of(h),
    ensures
        request_token(Some(h), query) == Some(h.skip("Bearer "@.len() as int)),
{
}

/// Law: without a usable header, a query string that is a single `token=`
/// parameter yields its value.
pub proof fn law_query_token_parameter(v: Seq<char>, header: Option<Seq<char>>)
    requires
        !v.contains('&'),
        header matches Some(h) ==> header_token(h) is None,
    ensures
        request_token(header, Some("token="@ + v)) == Some(v),
{
    reveal_strlit("token=");
    let q = "token="@ + v;
    assert forall|k: int| 0 <= k < q.len() implies q[k] != '&' by {
        if k >= 6 {
            assert(q[k] == v[k - 6]);
        }
    }
    lemma_first_amp(q, q.len() as int);
    assert(q.take(q.len() as int) =~= q);
    assert("token="@ =~= q.subrange(0, 6));
    assert(q.skip(6) =~= v);
}

/// The bearer token of an `Authorization` header value.
pub fn token_from_header(h: &str) -> (r: Option<String>)
    ensures
        r matches Some(t) ==> header_token(h@) == Some(t@),
        r is None ==> header_token(h@) is None,
{
    strip_prefix(h, "Bearer ")
}

/// The `token` parameter of a query string.
pub fn token_from_query(q: &str) -> (r: Option<String>)
    ensures
        r matches Some(t) ==> query_token(q@) == Some(t@),
        r is None ==> query_token(q@) is None,
{
    let n = q.unicode_len();
    let mut i: usize = 0;
    assert(q@.skip(0) =~= q@);
    loop
        invariant
            n == q@.len(),
            i <= n,
            query_token(q@.skip(i as int)) == query_token(q@),
        decreases n - i,
    {
        let ghost rest = q@.skip(i as int);
        let mut e: usize = i;
        while e < n && q.get_char(e) != '&'
            invariant
                n == q@.len(),
                i <= e <= n,
                forall|k: int| i <= k < e ==> q@[k] != '&',
            decreases n - e,
        {
            e = e + 1;
        }
        proof {
            lemma_first_amp(rest, e - i);
        }
        let part = substring(q, i, e);
        assert(part@ =~= rest.take(e - i));
        match strip_prefix(part.as_str(), "token=") {
            Some(t) => {
                return Some(t);
            },
            None => {
                if e < n {
                    assert(rest.skip(e - i + 1) =~= q@.skip(e + 1));
                    i = e + 1;
                } else {
                    return None;
                }
            },
        }
    }
}

/// Extracts the token from the `Authorization` header (`Bearer <token>`) or,
/// failing that, from the `token` query parameter.
///
/// `authorization` is the header's value when it is present and made of
/// visible ASCII characters; `query` is the request's query string.
pub fn extract_token(authorization: Option<&str>, query: Option<&str>) -> (r: Option<String>)
    ensures
        r matches Some(t) ==> request_token(
            str_view(authorization),
            str_view(query),
        ) == Some(t@),
        r is None ==> request_token(str_view(authorization), str_view(query))
            is None,
{
    if let Some(h) = authorization {
        if let Some(t) = token_from_header(h) {
            return Some(t);
        }
    }
    match query {
        Some(q) => token_from_query(q),
        None => None,
    }
}

/// The key a JWKS document publishes, if it publishes one.
pub open spec fn published_key(t: Seq<char>) -> Option<(Seq<char>, Seq<char>)> {
    if exists|x: Seq<char>, y: Seq<char>| jwks_publishes(t, x, y) {
        Some(choose|x: Seq<char>, y: Seq<char>| jwks_publishes(t, x, y))
    } else {
        None
    }
}

/// The index of the first quote of `s` at or after `from`, or its length when
/// there is none.
fn first_quote(s: &str, from: usize) -> (i: usize)
    requires
        from <= s@.len(),
    ensures
        from <= i <= s@.len(),
        forall|k: int| from <= k < i ==> s@[k] != '"',
        i == s@.len() || s@[i as int] == '"',
{
    let n = s.unicode_len();
    let mut i = from;
    while i < n && s.get_char(i) != '"'
        invariant
            n == s@.len(),
            from <= i <= n,
            forall|k: int| from <= k < i ==> s@[k] != '"',
        decreases n - i,
    {
        i = i + 1;
    }
    i
}

/// `i` is the index of the first quote of `s`, or its length when there is none.
pub open spec fn first_quote_is(s: Seq<char>, i: int) -> bool {
    &&& 0 <= i <= s.len()
    &&& forall|k: int| 0 <= k < i ==> s[k] != '"'
    &&& (i == s.len() || s[i] == '"')
}

/// The first quote of `a + b` is at the end of `a` when `a` holds none and
/// `b` starts with one.
proof fn lemma_quote_at(a: Seq<char>, b: Seq<char>, i: int)
    requires
        !a.contains('"'),
        b.len() > 0,
        b[0] == '"',
        first_quote_is(a + b, i),
    ensures
        i == a.len(),
{
    if i < a.len() {
        assert((a + b)[i] == a[i]);
        assert(a.contains('"'));
    } else if i > a.len() {
        assert((a + b)[a.len() as int] == b[0]);
    }
}

/// What a document publishing `(x, y)` holds after its head.
proof fn lemma_published_parts(t: Seq<char>, x: Seq<char>, y: Seq<char>)
    requires
        jwks_publishes(t, x, y),
    ensures
        jwks_head().is_prefix_of(t),
        t.skip(jwks_head().len() as int) == x + (jwks_middle() + (y + jwks_tail())),
{
    assert(t.subrange(0, jwks_head().len() as int) =~= jwks_head());
    assert(t.skip(jwks_head().len() as int) =~= x + (jwks_middle() + (y + jwks_tail())));
}

/// Where a document publishing `(x, y)` has its first quote after the head,
/// and what follows the middle.
proof fn lemma_published_quotes(t: Seq<char>, x: Seq<char>, y: Seq<char>, i: int)
    requires
        jwks_publishes(t, x, y),
        first_quote_is(t.skip(jwks_head().len() as int), i),
    ensures
        i == x.len(),
        jwks_middle().is_prefix_of(t.skip(jwks_head().len() as int).skip(i)),
        t.skip(jwks_head().len() as int).skip(i).skip(jwks_middle().len() as int) == y
            + jwks_tail(),
{
    reveal_strlit("\",\"y\":\"");
    lemma_published_parts(t, x, y);
    let rest = t.skip(jwks_head().len() as int);
    lemma_quote_at(x, jwks_middle() + (y + jwks_tail()), i);
    assert(rest.skip(i) =~= jwks_middle() + (y + jwks_tail()));
    assert(rest.skip(i).subrange(0, jwks_middle().len() as int) =~= jwks_middle());
    assert(rest.skip(i).skip(jwks_middle().len() as int) =~= y + jwks_tail());
}

/// Where a document publishing `(x, y)` has its first quote after the
/// middle, and what follows it.
proof fn lemma_published_end(t: Seq<char>, x: Seq<char>, y: Seq<char>, rest2: Seq<char>, j: int)
    requires
        jwks_publishes(t, x, y),
        rest2 == y + jwks_tail(),
        first_quote_is(rest2, j),
    ensures
        j == y.len(),
        rest2.skip(j) == jwks_tail(),
{
    reveal_strlit("\"}]}");
    lemma_quote_at(y, jwks_tail(), j);
    assert(rest2.skip(j) =~= jwks_tail());
}

/// A document whose text, split at its first quotes, does not have the
/// issuer's shape publishes no key.
proof fn lemma_unpublished(t: Seq<char>, i: int, j: int)
    requires
        jwks_head().is_prefix_of(t) ==> first_quote_is(t.skip(jwks_head().len() as int), i),
        jwks_head().is_prefix_of(t) && i < t.skip(jwks_head().len() as int).len()
            && jwks_middle().is_prefix_of(t.skip(jwks_head().len() as int).skip(i)) ==> first_quote_is(
            t.skip(jwks_head().len() as int).skip(i).skip(jwks_middle().len() as int),
            j,
        ),
        !{
            &&& jwks_head().is_prefix_of(t)
            &&& i < t.skip(jwks_head().len() as int).len()
            &&& jwks_middle().is_prefix_of(t.skip(jwks_head().len() as int).skip(i))
            &&& j < t.skip(jwks_head().len() as int).skip(i).skip(jwks_middle().len() as int).len()
            &&& t.skip(jwks_head().len() as int).skip(i).skip(jwks_middle().len() as int).skip(j)
                == jwks_tail()
        },
    ensures
        forall|x: Seq<char>, y: Seq<char>| !jwks_publishes(t, x, y),
{
    reveal_strlit("\",\"y\":\"");
    reveal_strlit("\"}]}");
    assert forall|x: Seq<char>, y: Seq<char>| !jwks_publishes(t, x, y) by {
        if jwks_publishes(t, x, y) {
            lemma_published_parts(t, x, y);
            lemma_published_quotes(t, x, y, i);
            let rest2 = t.skip(jwks_head().len() as int).skip(i).skip(jwks_middle().len() as int);
            lemma_published_end(t, x, y, rest2, j);
        }
    }
}

/// A document with the issuer's shape publishes the key found at its quotes.
proof fn lemma_found(t: Seq<char>, x: Seq<char>, y: Seq<char>, i: int, j: int)
    requires
        jwks_head().is_prefix_of(t),
        first_quote_is(t.skip(jwks_head().len() as int), i),
        i < t.skip(jwks_head().len() as int).len(),
        x == t.skip(jwks_head().len() as int).subrange(0, i),
        jwks_middle().is_prefix_of(t.skip(jwks_head().len() as int).skip(i)),
        first_quote_is(t.skip(jwks_head().len() as int).skip(i).skip(jwks_middle().len() as int), j),
        y == t.skip(jwks_head().len() as int).skip(i).skip(jwks_middle().len() as int).subrange(0, j),
        t.skip(jwks_head().len() as int).skip(i).skip(jwks_middle().len() as int).skip(j)
            == jwks_tail(),
    ensures
        jwks_publishes(t, x, y),
        published_key(t) == Some((x, y)),
{
    let hl = jwks_head().len() as int;
    let ml = jwks_middle().len() as int;
    let rest = t.skip(hl);
    let after = rest.skip(i);
    let rest2 = after.skip(ml);
    assert(!x.contains('"')) by {
        if x.contains('"') {
            let k = choose|k: int| 0 <= k < x.len() && x[k] == '"';
            assert(rest[k] == x[k]);
        }
    }
    assert(!y.contains('"')) by {
        if y.contains('"') {
            let k = choose|k: int| 0 <= k < y.len() && y[k] == '"';
            assert(rest2[k] == y[k]);
        }
    }
    assert(rest2 =~= y + jwks_tail());
    assert(after =~= jwks_middle() + rest2);
    assert(rest =~= x + after);
    assert(t =~= jwks_head() + rest);
    assert(t =~= jwks_head() + x + jwks_middle() + y + jwks_tail());
    let k = choose|xx: Seq<char>, yy: Seq<char>| jwks_publishes(t, xx, yy);
    law_jwks_key_unique(t, x, y, k.0, k.1);
}

/// Reads the key a JWKS document publishes: the base64url coordinates of the
/// ES256 key of a document written as the issuer writes it.
#[verifier::spinoff_prover]
pub fn jwks_key(jwks: &str) -> (r: Option<(String, String)>)
    ensures
        r matches Some(k) ==> jwks_publishes(jwks@, k.0@, k.1@) && published_key(jwks@) == Some(
            (k.0@, k.1@),
        ),
        r is None ==> published_key(jwks@) is None,
{
    let head = "{\"keys\":[{\"alg\":\"ES256\",\"crv\":\"P-256\",\"kty\":\"EC\",\"use\":\"sig\",\"x\":\"";
    let middle = "\",\"y\":\"";
    let tail = "\"}]}";
    assert(head@ == jwks_head());
    assert(middle@ == jwks_middle());
    assert(tail@ == jwks_tail());
    let ghost t = jwks@;
    let ghost hl = jwks_head().len() as int;
    let ghost ml = jwks_middle().len() as int;
    let rest = match strip_prefix(jwks, head) {
        Some(r) => r,
        None => {
            proof {
                lemma_unpublished(t, 0, 0);
            }
            return None;
        },
    };
    let n = char_len(rest.as_str());
    let i = first_quote(rest.as_str(), 0);
    assert(first_quote_is(t.skip(hl), i as int));
    if i == n {
        proof {
            lemma_unpublished(t, i as int, 0);
        }
        return None;
    }
    let x = substring(rest.as_str(), 0, i);
    let after = substring(rest.as_str(), i, n);
    assert(after@ =~= t.skip(hl).skip(i as int));
    let rest2 = match strip_prefix(after.as_str(), middle) {
        Some(r) => r,
        None => {
            proof {
                lemma_unpublished(t, i as int, 0);
            }
            return None;
        },
    };
    let n2 = char_len(rest2.as_str());
    let j = first_quote(rest2.as_str(), 0);
    assert(first_quote_is(t.skip(hl).skip(i as int).skip(ml), j as int));
    if j == n2 {
        proof {
            lemma_unpublished(t, i as int, j as int);
        }
        return None;
    }
    let y = substring(rest2.as_str(), 0, j);
    let end = substring(rest2.as_str(), j, n2);
    let found = match strip_prefix(end.as_str(), tail) {
        Some(e) => char_len(e.as_str()) == 0,
        None => false,
    };
    proof {
        if found {
            assert(end@ =~= jwks_tail());
        }
        if end@ == jwks_tail() {
            assert(end@.skip(jwks_tail().len() as int) =~= Seq::<char>::empty());
        }
    }
    if found {
        proof {
            lemma_found(t, x@, y@, i as int, j as int);
        }
        Some((x, y))
    } else {
        proof {
            lemma_unpublished(t, i as int, j as int);
        }
        None
    }
}

/// Law: the key read from a JWKS document is the key it publishes, so the
/// key read from the issuer's document is the one its tokens verify under.
pub proof fn law_published_key_reads_back(t: Seq<char>, x: Seq<char>, y: Seq<char>)
    requires
        jwks_publishes(t, x, y),
    ensures
        published_key(t) == Some((x, y)),
{
    let k = choose|xx: Seq<char>, yy: Seq<char>| jwks_publishes(t, xx, yy);
    law_jwks_key_unique(t, x, y, k.0, k.1);
}

/// Law: a token that verifies under the key a JWKS document publishes (as
/// the issuer's tokens do under its document) verifies under the key read
/// from that document.
pub proof fn law_issued_token_verifies_under_read_key(
    jwks: Seq<char>,
    token: Seq<char>,
    x: Seq<char>,
    y: Seq<char>,
)
    requires
        jwks_publishes(jwks, x, y),
        token_verifies("ES256"@, token, x, y),
    ensures
        published_key(jwks) matches Some(k) && token_verifies("ES256"@, token, k.0, k.1),
{
    law_published_key_reads_back(jwks, x, y);
}

/// Checks a signature: `jsonwebtoken::crypto::verify` of `signature` over
/// `message` with the JWS algorithm named `alg` (`Algorithm::from_str`) and
/// the EC public key `DecodingKey::from_ec_components(x, y)`; an error of
/// any of these calls answers false. The answer depends on the arguments
/// alone (ECDSA verification draws no randomness).
#[verifier::external_body]
fn jws_verify(alg: &str, signature: &str, message: &[u8], x: &str, y: &str) -> (r: bool)
    ensures
        r == jws_signature_valid(alg@, signature@, message@, x@, y@),
{
    match (
        <jsonwebtoken::Algorithm as std::str::FromStr>::from_str(alg),
        jsonwebtoken::DecodingKey::from_ec_components(x, y),
    ) {
        (Ok(algorithm), Ok(key)) => jsonwebtoken::crypto::verify(signature, message, &key, algorithm)
            .unwrap_or(false),
        _ => false,
    }
}

/// A token splits one way only into a message, a dot and a part holding no dot.
proof fn lemma_last_dot_unique(t: Seq<char>, m: Seq<char>, s: Seq<char>, m2: Seq<char>, s2: Seq<char>)
    requires
        t == m + "."@ + s,
        !s.contains('.'),
        t == m2 + "."@ + s2,
        !s2.contains('.'),
    ensures
        m == m2,
        s == s2,
{
    reveal_strlit(".");
    assert("."@ =~= seq!['.']);
    assert(t.len() == m.len() + 1 + s.len());
    assert(t.len() == m2.len() + 1 + s2.len());
    assert(t =~= (m + seq!['.']) + s);
    assert(t =~= (m2 + seq!['.']) + s2);
    if s.len() < s2.len() {
        let k = s2.len() - s.len() - 1;
        assert(t[m.len() as int] == (m + seq!['.'])[m.len() as int]);
        assert(t[m.len() as int] == '.');
        assert(t[m.len() as int] == s2[k]);
        assert(s2.contains('.'));
    } else if s2.len() < s.len() {
        let k = s.len() - s2.len() - 1;
        assert(t[m2.len() as int] == (m2 + seq!['.'])[m2.len() as int]);
        assert(t[m2.len() as int] == '.');
        assert(t[m2.len() as int] == s[k]);
        assert(s.contains('.'));
    }
    assert(m =~= t.subrange(0, m.len() as int));
    assert(m2 =~= t.subrange(0, m2.len() as int));
    assert(s =~= t.skip(m.len() as int + 1));
    assert(s2 =~= t.skip(m2.len() as int + 1));
}

/// Splits a token at its last dot: the message before it and the signature
/// after it; none when the token holds no dot.
pub fn split_last_dot(t: &str) -> (r: Option<(String, String)>)
    ensures
        r matches Some(p) ==> t@ == p.0@ + "."@ + p.1@ && !p.1@.contains('.'),
        r is None ==> !t@.contains('.'),
{
    proof {
        reveal_strlit(".");
    }
    let n = char_len(t);
    let mut i = n;
    while i > 0 && t.get_char(i - 1) != '.'
        invariant
            n == t@.len(),
            i <= n,
            forall|k: int| i <= k < n ==> t@[k] != '.',
        decreases i,
    {
        i = i - 1;
    }
    if i == 0 {
        return None;
    }
    let m = substring(t, 0, i - 1);
    let s = substring(t, i, n);
    assert(t@ =~= m@ + "."@ + s@);
    assert(!s@.contains('.')) by {
        if s@.contains('.') {
            let k = choose|k: int| 0 <= k < s@.len() && s@[k] == '.';
            assert(t@[i + k] == s@[k]);
        }
    }
    Some((m, s))
}

/// Two texts joined by a dot hold a dot.
proof fn lemma_joined_has_dot(a: Seq<char>, b: Seq<char>)
    ensures
        (a + "."@ + b).contains('.'),
{
    reveal_strlit(".");
    assert((a + "."@ + b)[a.len() as int] == '.');
}

/// The three parts of a token, when it has that shape, are determined by it.
proof fn lemma_token_parts_unique(
    t: Seq<char>,
    h: Seq<char>,
    p: Seq<char>,
    s: Seq<char>,
    m2: Seq<char>,
    s2: Seq<char>,
    h2: Seq<char>,
    p2: Seq<char>,
)
    requires
        token_parts(t, h, p, s),
        t == m2 + "."@ + s2,
        !s2.contains('.'),
        m2 == h2 + "."@ + p2,
        !p2.contains('.'),
    ensures
        h == h2,
        p == p2,
        s == s2,
{
    assert(t =~= (h + "."@ + p) + "."@ + s);
    lemma_last_dot_unique(t, h + "."@ + p, s, m2, s2);
    lemma_last_dot_unique(m2, h, p, h2, p2);
}

/// The bytes the payload of a JWT decodes to: the token is split into three
/// parts holding no dot, and the middle one is decoded from unpadded URL-safe
/// base64. None when the token is not three such parts or its payload is not
/// such an encoding.
pub fn token_payload(token: &str) -> (r: Option<Vec<u8>>)
    ensures
        r matches Some(b) ==> exists|h: Seq<char>, p: Seq<char>|
            #[trigger] jwt_with_parts(token@, h, p) && base64url_nopad_decoded(p) == Some(b@),
        forall|h: Seq<char>, bytes: Seq<u8>|
            #[trigger] jwt_with_parts(token@, h, base64url_nopad(bytes)) ==> (r matches Some(d)
                && d@ == bytes),
        r is None ==> forall|h: Seq<char>, p: Seq<char>|
            #[trigger] jwt_with_parts(token@, h, p) ==> base64url_nopad_decoded(p) is None,
{
    let ghost t = token@;
    let (m, s) = match split_last_dot(token) {
        Some(x) => x,
        None => {
            assert forall|hh: Seq<char>, pp: Seq<char>| !#[trigger] jwt_with_parts(t, hh, pp) by {
                if jwt_with_parts(t, hh, pp) {
                    let sg = choose|sg: Seq<char>| #[trigger] token_parts(t, hh, pp, sg);
                    assert(t =~= (hh + "."@ + pp) + "."@ + sg);
                    lemma_joined_has_dot(hh + "."@ + pp, sg);
                }
            }
            return None;
        },
    };
    let (h, p) = match split_last_dot(m.as_str()) {
        Some(x) => x,
        None => {
            assert forall|hh: Seq<char>, pp: Seq<char>| !#[trigger] jwt_with_parts(t, hh, pp) by {
                if jwt_with_parts(t, hh, pp) {
                    let sg = choose|sg: Seq<char>| #[trigger] token_parts(t, hh, pp, sg);
                    assert(t =~= (hh + "."@ + pp) + "."@ + sg);
                    lemma_last_dot_unique(t, hh + "."@ + pp, sg, m@, s@);
                    lemma_joined_has_dot(hh, pp);
                }
            }
            return None;
        },
    };
    match split_last_dot(h.as_str()) {
        Some(q) => {
            assert forall|hh: Seq<char>, pp: Seq<char>| !#[trigger] jwt_with_parts(t, hh, pp) by {
                if jwt_with_parts(t, hh, pp) {
                    let sg = choose|sg: Seq<char>| #[trigger] token_parts(t, hh, pp, sg);
                    lemma_token_parts_unique(t, hh, pp, sg, m@, s@, h@, p@);
                    lemma_joined_has_dot(q.0@, q.1@);
                }
            }
            return None;
        },
        None => {},
    }
    proof {
        assert(token_parts(t, h@, p@, s@));
        assert(jwt_with_parts(t, h@, p@));
    }
    let r = base64url_decode(p.as_str());
    proof {
        assert forall|hh: Seq<char>, bytes: Seq<u8>|
            #[trigger] jwt_with_parts(t, hh, base64url_nopad(bytes)) implies (r matches Some(d)
                && d@ == bytes) by {
            let sg = choose|sg: Seq<char>| #[trigger] token_parts(t, hh, base64url_nopad(bytes), sg);
            lemma_token_parts_unique(t, hh, base64url_nopad(bytes), sg, m@, s@, h@, p@);
        }
        if r is None {
            assert forall|hh: Seq<char>, pp: Seq<char>| #[trigger]
                jwt_with_parts(t, hh, pp) implies base64url_nopad_decoded(pp) is None by {
                let sg = choose|sg: Seq<char>| #[trigger] token_parts(t, hh, pp, sg);
                lemma_token_parts_unique(t, hh, pp, sg, m@, s@, h@, p@);
            }
        }
    }
    r
}

/// The whole number a JSON document holds under `key` at its top level:
/// `serde_json::from_slice` into a `Value`, `Value::get(key)`, then
/// `Value::as_u64`; none when the bytes are not JSON, the document is not an
/// object holding the key, or the value is not a whole number that fits a
/// `u64`.
pub uninterp spec fn json_u64_field(json: Seq<u8>, key: Seq<char>) -> Option<u64>;

/// Reads the whole number under `key` of a JSON document (see
/// `json_u64_field`).
#[verifier::external_body]
fn json_u64_at(json: &[u8], key: &str) -> (r: Option<u64>)
    ensures
        r == json_u64_field(json@, key@),
{
    serde_json::from_slice::<serde_json::Value>(json).ok()?.get(key)?.as_u64()
}

/// The string a JSON document holds under `key` at its top level:
/// `serde_json::from_slice` into a `Value`, `Value::get(key)`, then
/// `Value::as_str`; none when the bytes are not JSON, the document is not an
/// object holding the key, or the value is not a string.
pub uninterp spec fn json_str_field(json: Seq<u8>, key: Seq<char>) -> Option<Seq<char>>;

/// Reads the string under `key` of a JSON document (see `json_str_field`).
#[verifier::external_body]
fn json_str_field_at(json: &[u8], key: &str) -> (r: Option<String>)
    ensures
        r matches Some(v) ==> json_str_field(json@, key@) == Some(v@),
        r is None ==> json_str_field(json@, key@) is None,
{
    serde_json::from_slice::<serde_json::Value>(json).ok()?.get(key)?.as_str().map(|v| v.to_string())
}

/// How many seconds past its `exp` claim a token is still accepted (the
/// leeway of `jsonwebtoken`'s default validation).
pub const EXP_LEEWAY_SECS: u64 = 60;

/// The header part `h` of a token decodes to a JSON object whose `alg` is
/// `ES256`.
pub open spec fn header_is_es256(h: Seq<char>) -> bool {
    base64url_nopad_decoded(h) matches Some(hb) && json_str_field(hb, "alg"@) == Some("ES256"@)
}

/// The payload part `p` of a token decodes to a JSON object whose `exp` is a
/// whole number no more than the leeway before `now`.
pub open spec fn payload_unexpired(p: Seq<char>, now: u64) -> bool {
    base64url_nopad_decoded(p) matches Some(pb) && (json_u64_field(pb, "exp"@) matches Some(e)
        && now <= e + EXP_LEEWAY_SECS)
}

/// The check a token's parts must pass at the clock reading `now` under the
/// EC key with base64url coordinates `x` and `y`: a valid ES256 signature of
/// header and payload, an `ES256` header, and an unexpired payload.
pub open spec fn parts_accepted(
    h: Seq<char>,
    p: Seq<char>,
    s: Seq<char>,
    x: Seq<char>,
    y: Seq<char>,
    now: u64,
) -> bool {
    &&& jws_signature_valid("ES256"@, s, encode_utf8(h + "."@ + p), x, y)
    &&& header_is_es256(h)
    &&& payload_unexpired(p, now)
}

/// `t` is a JWT accepted at the clock reading `now` under the EC key with
/// base64url coordinates `x` and `y`: three parts holding no dot, whose
/// signature, header and expiry pass the check.
pub open spec fn token_accepted(t: Seq<char>, x: Seq<char>, y: Seq<char>, now: u64) -> bool {
    exists|h: Seq<char>, p: Seq<char>, s: Seq<char>|
        #[trigger] token_parts(t, h, p, s) && parts_accepted(h, p, s, x, y, now)
}

/// Law: an accepted token verifies as an ES256 JWT under the same key.
pub proof fn law_accepted_token_verifies(t: Seq<char>, x: Seq<char>, y: Seq<char>, now: u64)
    requires
        token_accepted(t, x, y, now),
    ensures
        token_verifies("ES256"@, t, x, y),
{
    let (h, p, s) = choose|h: Seq<char>, p: Seq<char>, s: Seq<char>|
        #[trigger] token_parts(t, h, p, s) && parts_accepted(h, p, s, x, y, now);
    assert(t =~= (h + "."@ + p) + "."@ + s);
}

/// A token whose three parts fail the check is not accepted.
proof fn lemma_parts_decide(
    t: Seq<char>,
    h: Seq<char>,
    p: Seq<char>,
    s: Seq<char>,
    x: Seq<char>,
    y: Seq<char>,
    now: u64,
)
    requires
        token_parts(t, h, p, s),
    ensures
        token_accepted(t, x, y, now) == parts_accepted(h, p, s, x, y, now),
{
    if token_accepted(t, x, y, now) {
        let (h2, p2, s2) = choose|h2: Seq<char>, p2: Seq<char>, s2: Seq<char>|
            #[trigger] token_parts(t, h2, p2, s2) && parts_accepted(h2, p2, s2, x, y, now);
        assert(t =~= (h2 + "."@ + p2) + "."@ + s2);
        assert(t =~= (h + "."@ + p) + "."@ + s);
        lemma_token_parts_unique(t, h2, p2, s2, h + "."@ + p, s, h, p);
    }
}

/// Whether two texts are the same, character by character.
fn same_text(a: &str, b: &str) -> (r: bool)
    ensures
        r == (a@ == b@),
{
    let r = char_len(a) == char_len(b) && has_prefix(a, b);
    proof {
        if a@.len() == b@.len() && b@.is_prefix_of(a@) {
            assert(a@ =~= b@);
        }
    }
    r
}

/// Checks a token's three parts at the clock reading `now` under the key
/// with base64url coordinates `x` and `y`.
fn check_parts(h: &str, p: &str, s: &str, message: &str, x: &str, y: &str, now: u64) -> (r: bool)
    requires
        message@ == h@ + "."@ + p@,
    ensures
        r == parts_accepted(h@, p@, s@, x@, y@, now),
{
    let alg = "ES256";
    proof {
        reveal_strlit("ES256");
    }
    if !jws_verify(alg, s, message.as_bytes(), x, y) {
        return false;
    }
    let header_ok = match base64url_decode(h) {
        Some(hb) => match json_str_field_at(hb.as_slice(), "alg") {
            Some(a) => same_text(a.as_str(), alg),
            None => false,
        },
        None => false,
    };
    proof {
        reveal_strlit("alg");
    }
    if !header_ok {
        return false;
    }
    proof {
        reveal_strlit("exp");
    }
    match base64url_decode(p) {
        Some(pb) => match json_u64_at(pb.as_slice(), "exp") {
            Some(e) => now <= EXP_LEEWAY_SECS || now - EXP_LEEWAY_SECS <= e,
            None => false,
        },
        None => false,
    }
}

/// Whether a token is accepted at the clock reading `now` under the key with
/// base64url coordinates `x` and `y`: split into three parts holding no dot,
/// each checked.
pub fn accept_token(t: &str, x: &str, y: &str, now: u64) -> (r: bool)
    ensures
        r == token_accepted(t@, x@, y@, now),
{
    let ghost tv = t@;
    let (m, s) = match split_last_dot(t) {
        Some(q) => q,
        None => {
            assert forall|hh: Seq<char>, pp: Seq<char>, ss: Seq<char>|
                !#[trigger] token_parts(tv, hh, pp, ss) by {
                if token_parts(tv, hh, pp, ss) {
                    assert(tv =~= (hh + "."@ + pp) + "."@ + ss);
                    lemma_joined_has_dot(hh + "."@ + pp, ss);
                }
            }
            return false;
        },
    };
    let (h, p) = match split_last_dot(m.as_str()) {
        Some(q) => q,
        None => {
            assert forall|hh: Seq<char>, pp: Seq<char>, ss: Seq<char>|
                !#[trigger] token_parts(tv, hh, pp, ss) by {
                if token_parts(tv, hh, pp, ss) {
                    assert(tv =~= (hh + "."@ + pp) + "."@ + ss);
                    lemma_last_dot_unique(tv, hh + "."@ + pp, ss, m@, s@);
                    lemma_joined_has_dot(hh, pp);
                }
            }
            return false;
        },
    };
    match split_last_dot(h.as_str()) {
        Some(q) => {
            assert forall|hh: Seq<char>, pp: Seq<char>, ss: Seq<char>|
                !#[trigger] token_parts(tv, hh, pp, ss) by {
                if token_parts(tv, hh, pp, ss) {
                    lemma_token_parts_unique(tv, hh, pp, ss, m@, s@, h@, p@);
                    lemma_joined_has_dot(q.0@, q.1@);
                }
            }
            return false;
        },
        None => {},
    }
    proof {
        assert(token_parts(tv, h@, p@, s@));
        lemma_parts_decide(tv, h@, p@, s@, x@, y@, now);
    }
    check_parts(h.as_str(), p.as_str(), s.as_str(), m.as_str(), x, y, now)
}

/// JWT authentication decision at the clock reading `now` (whole seconds
/// since the Unix epoch). Requests from localhost skip authentication and
/// are let through with their token, if they have one. Any other request is
/// let through, with its token, exactly when it carries a JWT accepted under
/// the key published in `jwks`, the JWKS document of the user service: a
/// valid ES256 signature over its header and payload, an `ES256` header and
/// an `exp` claim no more than 60 seconds past. Every other request is
/// refused with status 401.
pub fn jwt_auth(
    from_localhost: bool,
    authorization: Option<&str>,
    query: Option<&str>,
    jwks: &str,
    now: u64,
) -> (r: Result<Option<String>, u16>)
    ensures
        ({
            let token = request_token(str_view(authorization), str_view(query));
            &&& from_localhost ==> (r matches Ok(o) && (o matches Some(t) ==> token == Some(t@)) && (
            o is None ==> token is None))
            &&& !from_localhost && token is None ==> r == Err::<Option<String>, u16>(401)
            &&& !from_localhost && published_key(jwks@) is None ==> r == Err::<
                Option<String>,
                u16,
            >(401)
            &&& !from_localhost && (token matches Some(t) && (published_key(jwks@) matches Some(k)
                && token_accepted(t, k.0, k.1, now))) ==> (r matches Ok(Some(u)) && token == Some(
                u@,
            ))
            &&& !from_localhost && (token matches Some(t) && (published_key(jwks@) matches Some(k)
                && !token_accepted(t, k.0, k.1, now))) ==> r == Err::<Option<String>, u16>(401)
            &&& !from_localhost ==> (r matches Ok(o) ==> (o matches Some(t) && token == Some(t@)
                && (published_key(jwks@) matches Some(k) && token_verifies(
                "ES256"@,
                t@,
                k.0,
                k.1,
            ))))
            &&& r matches Err(code) ==> code == 401 && !from_localhost
        }),
{
    let token = extract_token(authorization, query);
    if from_localhost {
        return Ok(token);
    }
    let t = match token {
        Some(t) => t,
        None => {
            return Err(401);
        },
    };
    let (x, y) = match jwks_key(jwks) {
        Some(k) => k,
        None => {
            return Err(401);
        },
    };
    if accept_token(t.as_str(), x.as_str(), y.as_str(), now) {
        proof {
            law_accepted_token_verifies(t@, x@, y@, now);
        }
        Ok(Some(t))
    } else {
        Err(401)
    }
}

} // verus!
