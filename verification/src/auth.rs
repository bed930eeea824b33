//! Credentials, claims and the token authority.

use vstd::prelude::*;
use crate::clock::now;
use crate::text::{opt_text, same_text};
use crate::token::{
    content_view, read_token, sign_claims, signed_token, token_content, ClaimSet, RawClaims, TokenDefect,
};

verus! {

/// How long an issued token lives, in seconds: 24 hours.
pub const TOKEN_LIFETIME: i64 = 86_400;

/// The body of a login request.
#[derive(Clone, Debug, PartialEq, Eq)]
pub struct LoginInfo {
    pub username: String,
    pub password: String,
}

/// The body of a successful login response.
#[derive(Clone, Debug, PartialEq, Eq)]
pub struct LoginResponse {
    pub token: String,
}

/// The payload of a verified token.
#[derive(Clone, Debug, PartialEq, Eq)]
pub struct Claims {
    /// Who the token was issued to.
    pub sub: String,
    /// The instant, in seconds since the epoch, from which the token is dead.
    pub exp: usize,
}

/// The mathematical content of [`Claims`].
pub struct ClaimsView {
    pub sub: Seq<char>,
    pub exp: int,
}

impl View for Claims {
    type V = ClaimsView;

    open spec fn view(&self) -> ClaimsView {
        ClaimsView { sub: self.sub@, exp: self.exp as int }
    }
}

/// Why a token was turned down.
#[derive(Clone, Copy, Debug, PartialEq, Eq, Structural)]
pub enum AuthError {
    /// The token cannot be parsed into a subject and an expiry.
    Malformed,
    /// The token parses, but its signature is wrong or it has expired.
    Invalid,
}

/// Whether the pair is the one account the service knows.
pub open spec fn valid_credentials(username: Seq<char>, password: Seq<char>) -> bool {
    username == "admin"@ && password == "password"@
}

/// Checks a username and password against the single built-in account.
pub fn is_valid_user(username: &str, password: &str) -> (ok: bool)
    ensures
        ok == valid_credentials(username@, password@),
{
    same_text(username, "admin") && same_text(password, "password")
}

/// The expiry of a token issued at `now`.
pub open spec fn expiry_at(now: int) -> int {
    now + TOKEN_LIFETIME
}

/// Whether a token issued at `now` has an expiry that the claims can hold.
pub open spec fn can_issue_at(now: int) -> bool {
    0 <= expiry_at(now) <= usize::MAX && expiry_at(now) <= i64::MAX
}

impl TokenDefect {
    /// Whether the defect means that the token could not be parsed, as
    /// opposed to parsed and refused.
    pub open spec fn unparseable(self) -> bool {
        self != TokenDefect::Refused
    }

    /// The error that the authority reports for this defect.
    pub open spec fn as_auth_error(self) -> AuthError {
        if self.unparseable() {
            AuthError::Malformed
        } else {
            AuthError::Invalid
        }
    }

    /// Computes [`TokenDefect::as_auth_error`].
    pub fn to_auth_error(self) -> (error: AuthError)
        ensures
            error == self.as_auth_error(),
    {
        match self {
            TokenDefect::Refused => AuthError::Invalid,
            _ => AuthError::Malformed,
        }
    }
}

/// The verdict on what was read from a token, at the instant `now`: the
/// claims when both are present and `now` lies before the expiry,
/// `Malformed` when the token did not parse or lacks a usable claim, and
/// `Invalid` when it was refused or has expired.
pub open spec fn verdict(content: Result<ClaimSet, TokenDefect>, now: int) -> Result<ClaimsView, AuthError> {
    match content {
        Err(defect) => Err(defect.as_auth_error()),
        Ok(claims) => match (claims.subject, claims.expiry) {
            (Some(sub), Some(exp)) => if exp > usize::MAX {
                Err(AuthError::Malformed)
            } else if now < exp {
                Ok(ClaimsView { sub, exp: exp as int })
            } else {
                Err(AuthError::Invalid)
            },
            _ => Err(AuthError::Malformed),
        },
    }
}

/// The verdict that accepts a token with these claims.
pub open spec fn accepted(sub: Seq<char>, exp: int) -> Result<ClaimsView, AuthError> {
    Ok(ClaimsView { sub, exp })
}

/// The verdict that turns a token down.
pub open spec fn refused(error: AuthError) -> Result<ClaimsView, AuthError> {
    Err(error)
}

/// The mathematical content of a verification result.
pub open spec fn verdict_view(result: Result<Claims, AuthError>) -> Result<ClaimsView, AuthError> {
    match result {
        Ok(claims) => Ok(claims@),
        Err(error) => Err(error),
    }
}

impl Claims {
    /// Judges what was read from a token at the instant `now` (seconds since
    /// the epoch).
    pub fn check(content: Result<RawClaims, TokenDefect>, now: i64) -> (result: Result<Claims, AuthError>)
        ensures
            verdict_view(result) == verdict(content_view(content), now as int),
    {
        match content {
            Err(defect) => Err(defect.to_auth_error()),
            Ok(raw) => match (raw.sub, raw.exp) {
                (Some(sub), Some(exp)) => {
                    if exp > usize::MAX as u64 {
                        Err(AuthError::Malformed)
                    } else if now < 0 || (now as u64) < exp {
                        Ok(Claims { sub, exp: exp as usize })
                    } else {
                        Err(AuthError::Invalid)
                    }
                },
                _ => Err(AuthError::Malformed),
            },
        }
    }
}

/// Issues and verifies bearer tokens under one shared secret.
#[derive(Clone, Debug)]
pub struct TokenAuthority {
    secret: String,
}

impl TokenAuthority {
    /// An authority that signs and verifies under `secret`.
    pub fn new(secret: String) -> (authority: TokenAuthority)
        ensures
            authority.secret() == secret@,
    {
        TokenAuthority { secret }
    }

    /// The signing secret.
    pub closed spec fn secret(&self) -> Seq<char> {
        self.secret@
    }

    /// The token for `subject` issued at `now`, if one can be made.
    pub open spec fn issued(&self, subject: Seq<char>, now: int) -> Option<Seq<char>> {
        if can_issue_at(now) {
            signed_token(self.secret(), subject, expiry_at(now) as u64)
        } else {
            None
        }
    }

    /// The verdict of this authority on `token` at `now`.
    pub open spec fn judged(&self, token: Seq<char>, now: int) -> Result<ClaimsView, AuthError> {
        verdict(token_content(self.secret(), token), now)
    }

    /// Issues a token for `subject` at the instant `now` (seconds since the
    /// epoch). The token expires 24 hours later. There is no token when the
    /// expiry cannot be represented or the signer fails.
    ///
    /// A token that was issued is accepted by this authority, with the
    /// subject and expiry that went in, at every instant before its expiry,
    /// and turned down as `Invalid` at the expiry and ever after.
    pub fn issue_at(&self, subject: &str, now: i64) -> (token: Option<String>)
        ensures
            opt_text(token) == self.issued(subject@, now as int),
            token matches Some(t) ==> forall|at: int| at < expiry_at(now as int) ==> #[trigger] self.judged(t@, at)
                == accepted(subject@, expiry_at(now as int)),
            token matches Some(t) ==> forall|at: int| at >= expiry_at(now as int) ==> #[trigger] self.judged(t@, at)
                == refused(AuthError::Invalid),
    {
        if now > i64::MAX - TOKEN_LIFETIME || now < -TOKEN_LIFETIME {
            return None;
        }
        let expiry: i64 = now + TOKEN_LIFETIME;
        if expiry as u64 > usize::MAX as u64 {
            return None;
        }
        sign_claims(self.secret.as_str(), subject, expiry as u64)
    }

    /// What issuing for `subject` at `now` (seconds since the epoch) comes
    /// to: `token` is the token for `subject` issued at `now`, or none where
    /// none can be made; and a token that there is is accepted by this
    /// authority, with `subject` and the expiry 24 hours after `now`, at
    /// every instant before that expiry, and turned down as `Invalid` at
    /// the expiry and ever after.
    pub open spec fn issuance(&self, subject: Seq<char>, now: i64, token: Option<Seq<char>>) -> bool {
        &&& token == self.issued(subject, now as int)
        &&& token matches Some(t) ==> forall|at: int|
            at < expiry_at(now as int) ==> #[trigger] self.judged(t, at) == accepted(subject, expiry_at(now as int))
        &&& token matches Some(t) ==> forall|at: int|
            at >= expiry_at(now as int) ==> #[trigger] self.judged(t, at) == refused(AuthError::Invalid)
    }

    /// Issues a token for `subject` at the present instant: what
    /// [`TokenAuthority::issue_at`] issues at the instant that the clock
    /// shows, with the life that it gives the token. Whether there is a
    /// token lies with the clock and the signer.
    pub fn issue(&self, subject: &str) -> (token: Option<String>)
        ensures
            exists|now: i64| #[trigger] self.issuance(subject@, now, opt_text(token)),
    {
        let moment = now();
        let token = self.issue_at(subject, moment.seconds);
        assert(self.issuance(subject@, moment.seconds, opt_text(token)));
        token
    }

    /// Verifies `token` at the instant `now` (seconds since the epoch).
    pub fn verify_at(&self, token: &str, now: i64) -> (result: Result<Claims, AuthError>)
        ensures
            verdict_view(result) == self.judged(token@, now as int),
    {
        Claims::check(read_token(self.secret.as_str(), token), now)
    }

    /// Verifies `token` at the present instant.
    pub fn verify(&self, token: &str) -> (result: Result<Claims, AuthError>)
        ensures
            exists|now: int| verdict_view(result) == #[trigger] self.judged(token@, now),
    {
        let moment = now();
        self.verify_at(token, moment.seconds)
    }
}

} // verus!
