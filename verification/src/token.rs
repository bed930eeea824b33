//! The signed-token format, as the `jsonwebtoken` crate writes and reads it.
//!
//! Nothing here is proved: each function states what the crate's HS256 code
//! does, and the authority in [`crate::auth`] is verified against that.

use vstd::prelude::*;
use jsonwebtoken::{decode, encode, Algorithm, DecodingKey, EncodingKey, Header, Validation};
use jsonwebtoken::errors::ErrorKind;
use serde_json::Value;
use crate::text::opt_text;

verus! {

/// The two claims of a token as they were read, each absent when the payload
/// does not hold it in the expected JSON type.
#[derive(Clone, Debug, PartialEq, Eq)]
pub struct RawClaims {
    pub sub: Option<String>,
    pub exp: Option<u64>,
}

/// The mathematical content of [`RawClaims`].
pub struct ClaimSet {
    pub subject: Option<Seq<char>>,
    pub expiry: Option<u64>,
}

impl View for RawClaims {
    type V = ClaimSet;

    open spec fn view(&self) -> ClaimSet {
        ClaimSet {
            subject: match self.sub {
                Some(s) => Some(s@),
                None => None,
            },
            expiry: self.exp,
        }
    }
}

/// Why a token could not be read.
#[derive(Clone, Copy, Debug, PartialEq, Eq, Structural)]
pub enum TokenDefect {
    /// Not three dot-separated parts.
    Shape,
    /// A part is not base64.
    Base64,
    /// A part is not the expected JSON.
    Json,
    /// A part is not UTF-8.
    Utf8,
    /// The payload lacks an expiry.
    MissingClaim,
    /// Anything else: a wrong signature, a foreign algorithm, a foreign audience.
    Refused,
}

/// The mathematical content of what [`read_token`] returns.
pub open spec fn content_view(content: Result<RawClaims, TokenDefect>) -> Result<ClaimSet, TokenDefect> {
    match content {
        Ok(claims) => Ok(claims@),
        Err(defect) => Err(defect),
    }
}

/// The token that HS256 signing under `secret` yields for the claims
/// `{sub: subject, exp: expiry}`, or `None` where the signer fails.
pub uninterp spec fn signed_token(secret: Seq<char>, subject: Seq<char>, expiry: u64) -> Option<Seq<char>>;

/// What reading `token` under `secret` yields, with no regard to the clock.
pub uninterp spec fn token_content(secret: Seq<char>, token: Seq<char>) -> Result<ClaimSet, TokenDefect>;

/// A reading that found exactly this subject and expiry.
pub open spec fn holding(subject: Seq<char>, expiry: u64) -> Result<ClaimSet, TokenDefect> {
    Ok(ClaimSet { subject: Some(subject), expiry: Some(expiry) })
}

/// Signs `{sub, exp}` with `jsonwebtoken::encode` under the default header
/// (HS256) and a key made of the secret's bytes.
///
/// Trusted: the result is a function of the three arguments, and a token
/// that the signer returns reads back, under the same secret, as the claims
/// that went in.
#[verifier::external_body]
pub(crate) fn sign_claims(secret: &str, subject: &str, expiry: u64) -> (token: Option<String>)
    ensures
        opt_text(token) == signed_token(secret@, subject@, expiry),
        token matches Some(t) ==> token_content(secret@, t@) == holding(subject@, expiry),
{
    let mut claims = serde_json::Map::new();
    claims.insert(String::from("sub"), Value::from(subject));
    claims.insert(String::from("exp"), Value::from(expiry));
    encode(&Header::default(), &claims, &EncodingKey::from_secret(secret.as_bytes())).ok()
}

/// Reads a token with `jsonwebtoken::decode`: HS256 only, the signature
/// checked against a key made of the secret's bytes, an `exp` claim
/// required, and the crate's own comparison with the system clock switched
/// off, so that the outcome depends on the two arguments alone.
///
/// Trusted: the result is a function of the two arguments. A failure is
/// the crate's error kind: each of the five that [`TokenDefect`] names as
/// itself, any other as `Refused`.
#[verifier::external_body]
pub(crate) fn read_token(secret: &str, token: &str) -> (content: Result<RawClaims, TokenDefect>)
    ensures
        content_view(content) == token_content(secret@, token@),
{
    let mut rules = Validation::new(Algorithm::HS256);
    rules.validate_exp = false;
    match decode::<Value>(token, &DecodingKey::from_secret(secret.as_bytes()), &rules) {
        Ok(data) => Ok(RawClaims { sub: data.claims["sub"].as_str().map(String::from), exp: data.claims["exp"].as_u64() }),
        Err(error) => Err(match error.kind() {
            ErrorKind::InvalidToken => TokenDefect::Shape,
            ErrorKind::Base64(_) => TokenDefect::Base64,
            ErrorKind::Json(_) => TokenDefect::Json,
            ErrorKind::Utf8(_) => TokenDefect::Utf8,
            ErrorKind::MissingRequiredClaim(_) => TokenDefect::MissingClaim,
            _ => TokenDefect::Refused,
        }),
    }
}

} // verus!
