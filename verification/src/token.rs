use vstd::prelude::*;
use vstd::string::StringExecFns;

use jsonwebtoken::{decode, encode, Algorithm, DecodingKey, EncodingKey, Header, Validation};

use crate::errors::ServiceError;

verus! {

/// How long an issued session token stays valid, in seconds (24 hours).
pub const VALIDITY_WINDOW_SECS: u64 = 86400;

/// The claim set of a session token: the authenticated subject (the login
/// email), the account identifier, and an absolute expiry in epoch seconds.
/// Ephemeral: built per login, signed into a token, never persisted.
#[derive(Clone, Debug, PartialEq, Eq)]
pub struct SessionClaims {
    pub sub: String,
    pub user_id: String,
    pub exp: u64,
}

/// An issued token together with the claims that were signed into it.
#[derive(Clone, Debug)]
pub struct SignedToken {
    pub token: String,
    pub claims: SessionClaims,
}

/// The token that signing a given claim set with a given secret produces.
/// Serialization orders the claim keys canonically and HMAC-SHA256 is
/// deterministic, so the token is a function of these four values alone.
pub uninterp spec fn signed_token_of(
    sub: Seq<char>,
    user_id: Seq<char>,
    exp: u64,
    secret: Seq<u8>,
) -> Seq<char>;

/// Relies on `jsonwebtoken::encode` with the default HS256 header: the token
/// is a deterministic function of the claim fields and the secret, and the
/// call cannot fail — this claim shape (two strings and an integer) always
/// serializes, and the HMAC signer accepts a secret of any length and signs
/// infallibly.
#[verifier::external_body]
fn sign_claims(sub: &str, user_id: &str, exp: u64, secret: &[u8]) -> (r: Option<String>)
    ensures
        r is Some,
        r matches Some(t) ==> t@ == signed_token_of(sub@, user_id@, exp, secret@),
{
    let mut claims = serde_json::Map::new();
    claims.insert("sub".to_string(), serde_json::Value::from(sub));
    claims.insert("user_id".to_string(), serde_json::Value::from(user_id));
    claims.insert("exp".to_string(), serde_json::Value::from(exp));
    encode(
        &Header::default(),
        &serde_json::Value::Object(claims),
        &EncodingKey::from_secret(secret),
    )
    .ok()
}

/// What decoding promises: any claim set that was signed into this very
/// token text under this secret is handed back exactly.
pub open spec fn decodes_all_signed(
    token: Seq<char>,
    secret: Seq<u8>,
    r: Option<(String, String, u64)>,
) -> bool {
    forall|s: Seq<char>, u: Seq<char>, e: u64|
        token == #[trigger] signed_token_of(s, u, e, secret) ==> {
            &&& r matches Some(c)
            &&& c.0@ == s
            &&& c.1@ == u
            &&& c.2 == e
        }
}

/// Relies on `jsonwebtoken::decode` with HS256 and expiry validation turned
/// off: a token that `encode` produced from these claim fields and the same
/// secret decodes back to exactly those fields (the crate's round trip; the
/// encoding of a claim set is injective, so at most one claim set fits).
/// Nothing is stated of a token signed some other way.
#[verifier::external_body]
fn decode_claims(token: &str, secret: &[u8]) -> (r: Option<(String, String, u64)>)
    ensures
        decodes_all_signed(token@, secret@, r),
{
    let mut validation = Validation::new(Algorithm::HS256);
    validation.validate_exp = false;
    validation.required_spec_claims = std::collections::HashSet::new();
    let data =
        decode::<serde_json::Value>(token, &DecodingKey::from_secret(secret), &validation).ok()?;
    let sub = data.claims.get("sub")?.as_str()?.to_string();
    let user_id = data.claims.get("user_id")?.as_str()?.to_string();
    let exp = data.claims.get("exp")?.as_u64()?;
    Some((sub, user_id, exp))
}

/// Build and sign the claim set for an authenticated identity. The expiry is
/// exactly `now + VALIDITY_WINDOW_SECS`, and issuance always succeeds:
/// signing this claim shape under an HMAC secret cannot fail. The error
/// channel stays in the signature because a signing failure, could one occur,
/// would be fatal and surface as an internal error, never swallowed.
pub fn issue_token(sub: &str, user_id: &str, now: u64, secret: &[u8]) -> (r: Result<
    SignedToken,
    ServiceError,
>)
    requires
        now + VALIDITY_WINDOW_SECS <= u64::MAX,
    ensures
        r is Ok,
        r matches Ok(t) ==> {
            &&& t.claims.sub@ == sub@
            &&& t.claims.user_id@ == user_id@
            &&& t.claims.exp == now + VALIDITY_WINDOW_SECS
            &&& t.token@ == signed_token_of(sub@, user_id@, t.claims.exp, secret@)
        },
{
    let exp = now + VALIDITY_WINDOW_SECS;
    match sign_claims(sub, user_id, exp, secret) {
        Some(token) => Ok(
            SignedToken {
                token,
                claims: SessionClaims {
                    sub: String::from_str(sub),
                    user_id: String::from_str(user_id),
                    exp,
                },
            },
        ),
        None => Err(ServiceError::Internal),
    }
}

/// Check a presented token against the signing secret and the current time.
/// A token this process signed comes back as its claim set while the claims
/// have not expired, and is rejected once `now` reaches the expiry; anything
/// that does not decode under the secret is rejected the same way.
pub fn verify_token(token: &str, secret: &[u8], now: u64) -> (r: Result<
    SessionClaims,
    ServiceError,
>)
    ensures
        r matches Err(e) ==> e == ServiceError::Unauthenticated,
        r matches Ok(c) ==> c.exp > now,
        forall|s: Seq<char>, u: Seq<char>, e: u64|
            token@ == #[trigger] signed_token_of(s, u, e, secret@) && e > now ==> {
                &&& r matches Ok(c)
                &&& c.sub@ == s
                &&& c.user_id@ == u
                &&& c.exp == e
            },
        forall|s: Seq<char>, u: Seq<char>, e: u64|
            token@ == #[trigger] signed_token_of(s, u, e, secret@) && e <= now ==> r is Err,
{
    match decode_claims(token, secret) {
        Some((sub, user_id, exp)) => {
            if exp > now {
                Ok(SessionClaims { sub, user_id, exp })
            } else {
                Err(ServiceError::Unauthenticated)
            }
        },
        None => Err(ServiceError::Unauthenticated),
    }
}

} // verus!
