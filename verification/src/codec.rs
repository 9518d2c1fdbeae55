//! The signed token format, as the `jsonwebtoken` crate produces and reads
//! it.
//!
//! Nothing in this module is proved: each item states what the library takes
//! on trust from that crate. Tokens are signed with HMAC-SHA256 under a
//! shared secret and carry two claims, `sub` and `exp`.

use vstd::prelude::*;

verus! {

/// The error type of `jsonwebtoken`, carried through unread.
#[verifier::external_type_specification]
#[verifier::external_body]
pub struct ExCodecError(jsonwebtoken::errors::Error);

/// The token that `jsonwebtoken::encode` produces for the claims `sub` and
/// `exp` under `secret`, or `None` where it reports an error.
pub uninterp spec fn signed_token(sub: Seq<char>, exp: u64, secret: Seq<u8>) -> Option<Seq<char>>;

/// What `jsonwebtoken::decode` reads from `token` under `secret` when the
/// expiry is left unchecked: `None` where it reports an error (a malformed
/// token, another algorithm, a signature that does not match, no numeric
/// `exp` claim, an `aud` claim, for no audience is expected), else the `sub`
/// claim if it is a string and the `exp` claim if it is an unsigned integer.
pub uninterp spec fn token_payload(token: Seq<char>, secret: Seq<u8>) -> Option<
    (Option<Seq<char>>, Option<u64>),
>;

/// The view of an optional string.
pub open spec fn text_view(text: Option<String>) -> Option<Seq<char>> {
    match text {
        Some(s) => Some(s@),
        None => None,
    }
}

/// Calls `jsonwebtoken::encode` with the default header (HMAC-SHA256), a
/// claims object of the two members `sub` and `exp`, and `secret` as the
/// key. The contract claims only that the outcome is a function of the three
/// arguments: it is the one that `signed_token` names.
#[verifier::external_body]
pub(crate) fn sign_claims(sub: &str, exp: u64, secret: &[u8]) -> (r: Result<
    String,
    jsonwebtoken::errors::Error,
>)
    ensures
        r is Ok <==> signed_token(sub@, exp, secret@) is Some,
        r matches Ok(token) ==> signed_token(sub@, exp, secret@) == Some(token@),
{
    let mut claims = serde_json::Map::new();
    claims.insert(String::from("exp"), serde_json::Value::from(exp));
    claims.insert(String::from("sub"), serde_json::Value::from(sub));
    let key = jsonwebtoken::EncodingKey::from_secret(secret);
    jsonwebtoken::encode(&jsonwebtoken::Header::default(), &claims, &key)
}

/// Calls `jsonwebtoken::decode` with `secret` as the key and a validation
/// that admits HMAC-SHA256 only, requires an `exp` claim and does not
/// compare it with the clock, then hands out the `sub` and `exp` members of
/// the claims object. The contract claims only that the outcome is a function
/// of the two arguments: it is the one that `token_payload` names.
#[verifier::external_body]
pub(crate) fn read_claims(token: &str, secret: &[u8]) -> (r: Result<
    (Option<String>, Option<u64>),
    jsonwebtoken::errors::Error,
>)
    ensures
        r is Ok <==> token_payload(token@, secret@) is Some,
        r matches Ok(p) ==> token_payload(token@, secret@) == Some((text_view(p.0), p.1)),
{
    let mut validation = jsonwebtoken::Validation::new(jsonwebtoken::Algorithm::HS256);
    validation.validate_exp = false;
    let key = jsonwebtoken::DecodingKey::from_secret(secret);
    let data = jsonwebtoken::decode::<serde_json::Value>(token, &key, &validation)?;
    let sub = data.claims.get("sub").and_then(|v| v.as_str()).map(String::from);
    let exp = data.claims.get("exp").and_then(|v| v.as_u64());
    Ok((sub, exp))
}

} // verus!
