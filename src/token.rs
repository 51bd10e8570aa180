//! Access tokens: the claims of the root token and of a client token, their
//! signing, and the generation of a signing secret.
use crate::config::{Claims, encode_hex, hex_text, random_bytes};
use crate::cipher::hex_of_len;
use crate::text::now_seconds;
use jsonwebtoken::{EncodingKey, Header};
use vstd::prelude::*;

verus! {

/// The HS256-signed token of a set of claims under a secret.
pub uninterp spec fn hs256_token(
    sub: Seq<char>,
    iss: Seq<char>,
    iat: int,
    exp: int,
    secret: Seq<char>,
) -> Seq<char>;

/// The SHA-256 digest of a byte string.
pub uninterp spec fn sha256_of(data: Seq<u8>) -> Seq<u8>;

/// Relies on jsonwebtoken's `encode` with the default header (HS256): the
/// claims `sub`, `iss`, `iat` and `exp` signed with the secret. With an HMAC
/// key and a map of strings and integers it does not fail.
#[verifier::external_body]
fn jwt_encode(claims: &Claims, secret: &str) -> (r: Option<String>)
    ensures
        r is Some,
        r matches Some(t) ==> t@ == hs256_token(
            claims.sub@,
            claims.iss@,
            claims.iat as int,
            claims.exp as int,
            secret@,
        ),
{
    let mut map = serde_json::Map::new();
    map.insert("sub".to_owned(), serde_json::Value::from(claims.sub.clone()));
    map.insert("iss".to_owned(), serde_json::Value::from(claims.iss.clone()));
    map.insert("iat".to_owned(), serde_json::Value::from(claims.iat));
    map.insert("exp".to_owned(), serde_json::Value::from(claims.exp));
    jsonwebtoken::encode(&Header::default(), &map, &EncodingKey::from_secret(secret.as_bytes())).ok()
}

/// Relies on ring's `digest::digest(&SHA256, ..)`: a 32-byte digest.
#[verifier::external_body]
fn sha256(data: &[u8]) -> (r: Vec<u8>)
    ensures
        r@ == sha256_of(data@),
        r@.len() == 32,
{
    ring::digest::digest(&ring::digest::SHA256, data).as_ref().to_vec()
}

/// Lifetime of a root token without a given expiry: 156 weeks, in seconds.
pub const ROOT_TOKEN_LIFETIME: i64 = 94348800;

/// Lifetime of a client token: one hour, in seconds.
pub const CLIENT_TOKEN_LIFETIME: i64 = 3600;

/// `now + d`, held at `i64::MAX`.
pub open spec fn later(now: i64, d: i64) -> i64 {
    if now as int + d as int <= i64::MAX {
        (now + d) as i64
    } else {
        i64::MAX
    }
}

fn add_held(now: i64, d: i64) -> (r: i64)
    requires
        d >= 0,
    ensures
        r == later(now, d),
{
    if now <= i64::MAX - d {
        now + d
    } else {
        i64::MAX
    }
}

/// The claims of the root token issued at `now`: it expires at
/// `expiration`, or else `ROOT_TOKEN_LIFETIME` after `now`.
pub fn root_claims(now: i64, expiration: Option<i64>) -> (r: Claims)
    ensures
        r.sub@ == "Lucid Root Token"@,
        r.iss@ == "http://localhost:7021/"@,
        r.iat == now,
        r.exp == match expiration {
            Some(e) => e,
            None => later(now, ROOT_TOKEN_LIFETIME),
        },
{
    let exp = match expiration {
        Some(e) => e,
        None => add_held(now, ROOT_TOKEN_LIFETIME),
    };
    Claims {
        sub: "Lucid Root Token".to_owned(),
        iss: "http://localhost:7021/".to_owned(),
        iat: now,
        exp,
    }
}

/// The claims of a client token issued at `now`, valid for one hour.
pub fn client_claims(now: i64) -> (r: Claims)
    ensures
        r.sub@.len() == 0,
        r.iss@.len() == 0,
        r.iat == now,
        r.exp == later(now, CLIENT_TOKEN_LIFETIME),
{
    Claims { sub: String::new(), iss: String::new(), iat: now, exp: add_held(now, CLIENT_TOKEN_LIFETIME) }
}

/// A root token signed with `secret_key`, issued now.
pub fn issue_jwt(secret_key: &str, expiration: Option<i64>) -> (r: Option<String>)
    ensures
        r is Some,
        r matches Some(t) ==> exists|now: i64|
            t@ == hs256_token(
                "Lucid Root Token"@,
                "http://localhost:7021/"@,
                now as int,
                match expiration {
                    Some(e) => e as int,
                    None => later(now, ROOT_TOKEN_LIFETIME) as int,
                },
                secret_key@,
            ),
{
    let now = now_seconds();
    let claims = root_claims(now, expiration);
    jwt_encode(&claims, secret_key)
}

/// A client token signed with `secret`, valid for one hour from now.
pub fn client_token(secret: &str) -> (r: Option<String>)
    ensures
        r is Some,
        r matches Some(t) ==> exists|now: i64|
            t@ == hs256_token(
                Seq::<char>::empty(),
                Seq::<char>::empty(),
                now as int,
                later(now, CLIENT_TOKEN_LIFETIME) as int,
                secret@,
            ),
{
    let now = now_seconds();
    let claims = client_claims(now);
    proof {
        assert(claims.sub@ =~= Seq::<char>::empty());
        assert(claims.iss@ =~= Seq::<char>::empty());
    }
    jwt_encode(&claims, secret)
}

/// A fresh signing secret: the hex text of the SHA-256 digest of 32 random
/// bytes.
pub fn generate_secret_key() -> (r: String)
    ensures
        r@.len() == 64,
        hex_of_len(r@, 32),
        exists|b: Seq<u8>| b.len() == 32 && r@ == hex_text(sha256_of(b)),
{
    let seed = random_bytes(32);
    let digest = sha256(seed.as_slice());
    let r = encode_hex(digest.as_slice());
    proof {
        crate::config::lemma_hex_round_trip(digest@);
    }
    r
}

} // verus!
