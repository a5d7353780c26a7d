//! The boundary to the `jsonwebtoken` crate, which parses keys, signs
//! claims and opens tokens. Nothing in this file is proved: each function
//! here makes one call into the crate and states what is taken on trust
//! about it, and the rest of the library is verified against these
//! statements.
//!
//! What the crate computes is not written out. Each result has a name
//! instead, a function without a body, of which the library knows only
//! that equal arguments give equal results.

use vstd::prelude::*;

use crate::claims::{Claims, ClaimsView, RawClaims, RawClaimsView};
use crate::views::{ok_view, some_view};

verus! {

/// `jsonwebtoken::EncodingKey`: a private key, ready to sign.
#[verifier::external_type_specification]
#[verifier::external_body]
pub struct ExEncodingKey(jsonwebtoken::EncodingKey);

/// `jsonwebtoken::DecodingKey`: a public key, ready to check signatures.
#[verifier::external_type_specification]
#[verifier::external_body]
pub struct ExDecodingKey<'a>(jsonwebtoken::DecodingKey<'a>);

/// `jsonwebtoken::errors::Error`: why the crate gave up.
#[verifier::external_type_specification]
#[verifier::external_body]
pub struct ExError(jsonwebtoken::errors::Error);

/// The signature algorithms that a token's header can name.
#[derive(Clone, Copy, Debug, PartialEq, Eq, Structural)]
pub enum SignatureAlgorithm {
    Hs256,
    Hs384,
    Hs512,
    Es256,
    Es384,
    Rs256,
    Rs384,
    Rs512,
    Ps256,
    Ps384,
    Ps512,
}

/// The kinds of failure that the crate tells apart when it reads a
/// token, as far as the service treats them differently.
#[derive(Clone, Copy, Debug, PartialEq, Eq, Structural)]
pub enum DecodeFailure {
    /// The text does not have the three parts of a token.
    InvalidToken,
    /// The signature does not match.
    InvalidSignature,
    /// The expiry has passed.
    ExpiredSignature,
    /// The header's algorithm is not the one asked for.
    InvalidAlgorithm,
    /// A part is not base64.
    Base64,
    /// A part is not the JSON that is expected there.
    Json,
    /// A part is not UTF-8.
    Utf8,
    /// Any other kind.
    Other,
}

/// The key that `EncodingKey::from_rsa_pem` makes of `pem`, if it makes
/// one.
pub uninterp spec fn rsa_signing_key(pem: Seq<u8>) -> Option<jsonwebtoken::EncodingKey>;

/// The key that `DecodingKey::from_rsa_pem` makes of `pem`, if it makes
/// one.
pub uninterp spec fn rsa_verifying_key(pem: Seq<u8>) -> Option<
    jsonwebtoken::DecodingKey<'static>,
>;

/// The token that `jsonwebtoken::encode` makes of `claims` under an RS256
/// header and `key`, if it makes one.
pub uninterp spec fn signed_token(key: jsonwebtoken::EncodingKey, claims: ClaimsView) -> Option<
    Seq<char>,
>;

/// The algorithm that `jsonwebtoken::decode_header` finds in the header
/// of `token`, or its error.
pub uninterp spec fn token_algorithm(token: Seq<char>) -> Result<
    SignatureAlgorithm,
    jsonwebtoken::errors::Error,
>;

/// The payload that `jsonwebtoken::decode` finds in `token` once it has
/// accepted the RS256 signature under `key`, or its error. The expiry is
/// not judged.
pub uninterp spec fn opened_token(
    token: Seq<char>,
    key: jsonwebtoken::DecodingKey<'static>,
) -> Result<RawClaimsView, jsonwebtoken::errors::Error>;

/// The kind of `error`, as `Error::kind` gives it.
pub uninterp spec fn failure_kind(error: jsonwebtoken::errors::Error) -> DecodeFailure;

/// Calls `EncodingKey::from_rsa_pem` and drops its error. The crate
/// takes the key out of a PEM block with an RSA tag, or out of a PKCS#8
/// block that names RSA, and does not look into the key itself. The
/// contract claims that the outcome depends on the bytes alone.
#[verifier::external_body]
pub(crate) fn parse_signing_key(pem: &[u8]) -> (key: Option<jsonwebtoken::EncodingKey>)
    ensures
        key == rsa_signing_key(pem@),
{
    jsonwebtoken::EncodingKey::from_rsa_pem(pem).ok()
}

/// Calls `DecodingKey::from_rsa_pem` and drops its error; the key holds
/// a copy of what it needs, so `into_static` only changes its type. The
/// contract claims that the outcome depends on the bytes alone.
#[verifier::external_body]
pub(crate) fn parse_verifying_key(pem: &[u8]) -> (key: Option<
    jsonwebtoken::DecodingKey<'static>,
>)
    ensures
        key == rsa_verifying_key(pem@),
{
    jsonwebtoken::DecodingKey::from_rsa_pem(pem).ok().map(jsonwebtoken::DecodingKey::into_static)
}

/// Calls `jsonwebtoken::encode` with an RS256 header and the three
/// claims as a JSON object, and drops its error. The contract claims
/// that the outcome depends on the key and the claims alone: the crate
/// hands a random source to the signer, and the padding of RS256 never
/// draws on it.
#[verifier::external_body]
pub(crate) fn sign_claims(key: &jsonwebtoken::EncodingKey, claims: &Claims) -> (token: Option<
    String,
>)
    ensures
        some_view(token) == signed_token(*key, claims@),
{
    let mut body = serde_json::Map::new();
    body.insert(String::from("sub"), serde_json::Value::from(claims.sub.as_str()));
    body.insert(String::from("exp"), serde_json::Value::from(claims.exp));
    body.insert(String::from("iat"), serde_json::Value::from(claims.iat));
    let header = jsonwebtoken::Header::new(jsonwebtoken::Algorithm::RS256);
    jsonwebtoken::encode(&header, &body, key).ok()
}

/// Calls `jsonwebtoken::decode_header`, which splits the token at its
/// dots and parses the first part without checking any signature, and
/// names the algorithm of the header. The contract claims that the
/// outcome depends on the token alone.
#[verifier::external_body]
pub(crate) fn read_algorithm(token: &str) -> (alg: Result<
    SignatureAlgorithm,
    jsonwebtoken::errors::Error,
>)
    ensures
        alg == token_algorithm(token@),
{
    Ok(match jsonwebtoken::decode_header(token)?.alg {
        jsonwebtoken::Algorithm::HS256 => SignatureAlgorithm::Hs256,
        jsonwebtoken::Algorithm::HS384 => SignatureAlgorithm::Hs384,
        jsonwebtoken::Algorithm::HS512 => SignatureAlgorithm::Hs512,
        jsonwebtoken::Algorithm::ES256 => SignatureAlgorithm::Es256,
        jsonwebtoken::Algorithm::ES384 => SignatureAlgorithm::Es384,
        jsonwebtoken::Algorithm::RS256 => SignatureAlgorithm::Rs256,
        jsonwebtoken::Algorithm::RS384 => SignatureAlgorithm::Rs384,
        jsonwebtoken::Algorithm::RS512 => SignatureAlgorithm::Rs512,
        jsonwebtoken::Algorithm::PS256 => SignatureAlgorithm::Ps256,
        jsonwebtoken::Algorithm::PS384 => SignatureAlgorithm::Ps384,
        jsonwebtoken::Algorithm::PS512 => SignatureAlgorithm::Ps512,
    })
}

/// Calls `jsonwebtoken::decode` for RS256 with the crate's own expiry
/// check switched off, and picks the three claims out of the payload:
/// `sub` where it is a string, `exp` and `iat` where they are integers
/// of 64 bits. The contract claims that the outcome depends on the token
/// and the key alone. The crate still reads the system clock once the
/// signature has held, and panics if that clock stands before 1970.
#[verifier::external_body]
pub(crate) fn open_token(token: &str, key: &jsonwebtoken::DecodingKey<'static>) -> (payload:
    Result<RawClaims, jsonwebtoken::errors::Error>)
    ensures
        ok_view(payload) == opened_token(token@, *key),
{
    let mut policy = jsonwebtoken::Validation::new(jsonwebtoken::Algorithm::RS256);
    policy.validate_exp = false;
    let data = jsonwebtoken::decode::<serde_json::Value>(token, key, &policy)?;
    Ok(RawClaims {
        sub: data.claims.get("sub").and_then(serde_json::Value::as_str).map(String::from),
        exp: data.claims.get("exp").and_then(serde_json::Value::as_i64),
        iat: data.claims.get("iat").and_then(serde_json::Value::as_i64),
    })
}

/// Calls `Error::kind` and names the variant. The contract claims that
/// the kind depends on the error alone.
#[verifier::external_body]
pub(crate) fn failure_of(error: &jsonwebtoken::errors::Error) -> (kind: DecodeFailure)
    ensures
        kind == failure_kind(*error),
{
    match error.kind() {
        jsonwebtoken::errors::ErrorKind::InvalidToken => DecodeFailure::InvalidToken,
        jsonwebtoken::errors::ErrorKind::InvalidSignature => DecodeFailure::InvalidSignature,
        jsonwebtoken::errors::ErrorKind::ExpiredSignature => DecodeFailure::ExpiredSignature,
        jsonwebtoken::errors::ErrorKind::InvalidAlgorithm => DecodeFailure::InvalidAlgorithm,
        jsonwebtoken::errors::ErrorKind::Base64(_) => DecodeFailure::Base64,
        jsonwebtoken::errors::ErrorKind::Json(_) => DecodeFailure::Json,
        jsonwebtoken::errors::ErrorKind::Utf8(_) => DecodeFailure::Utf8,
        _ => DecodeFailure::Other,
    }
}

} // verus!
