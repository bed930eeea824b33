//! The access gate: the check that stands before every mutating operation.

use vstd::prelude::*;
use crate::auth::{verdict, AuthError, Claims, ClaimsView, TokenAuthority};
use crate::text::{after_prefix, names_match, same_name, strip_prefix};
use crate::token::token_content;

verus! {

/// One request header.
#[derive(Clone, Debug, PartialEq, Eq)]
pub struct Header {
    pub name: String,
    pub value: String,
}

/// Why the request was turned away. The reason is for the log: every rejection
/// looks the same to the client.
#[derive(Clone, Copy, Debug, PartialEq, Eq, Structural)]
pub enum Rejection {
    /// The request carries no `Authorization` header.
    MissingHeader,
    /// The header does not begin with `Bearer `.
    MalformedHeader,
    /// The token authority turned the token down.
    Token(AuthError),
}

/// The state of a request with respect to the access gate.
#[derive(Clone, Debug, PartialEq, Eq)]
pub enum GateState {
    Unauthenticated,
    Authenticated(Claims),
}

/// The mathematical content of [`GateState`].
pub enum GateView {
    Unauthenticated,
    Authenticated(ClaimsView),
}

impl View for GateState {
    type V = GateView;

    open spec fn view(&self) -> GateView {
        match self {
            GateState::Unauthenticated => GateView::Unauthenticated,
            GateState::Authenticated(claims) => GateView::Authenticated(claims@),
        }
    }
}

/// The value of the first header called `name`, letter case aside.
pub open spec fn header_value(headers: Seq<Header>, name: Seq<char>) -> Option<Seq<char>>
    decreases headers.len(),
{
    if headers.len() == 0 {
        None
    } else if same_name(headers[0].name@, name) {
        Some(headers[0].value@)
    } else {
        header_value(headers.drop_first(), name)
    }
}

/// The token that an `Authorization` header value carries.
pub open spec fn bearer_token(value: Seq<char>) -> Option<Seq<char>> {
    after_prefix(value, "Bearer "@)
}

/// What the access gate decides on these headers, for an authority with this
/// secret, at the instant `now`.
pub open spec fn gate_verdict(headers: Seq<Header>, secret: Seq<char>, now: int) -> Result<ClaimsView, Rejection> {
    match header_value(headers, "Authorization"@) {
        None => Err(Rejection::MissingHeader),
        Some(value) => match bearer_token(value) {
            None => Err(Rejection::MalformedHeader),
            Some(token) => match verdict(token_content(secret, token), now) {
                Ok(claims) => Ok(claims),
                Err(error) => Err(Rejection::Token(error)),
            },
        },
    }
}

/// The mathematical content of a gate result.
pub open spec fn passage_view(result: Result<Claims, Rejection>) -> Result<ClaimsView, Rejection> {
    match result {
        Ok(claims) => Ok(claims@),
        Err(rejection) => Err(rejection),
    }
}

/// Finds the value of the first header called `name`, letter case aside.
pub fn find_header<'a>(headers: &'a Vec<Header>, name: &str) -> (value: Option<&'a String>)
    ensures
        match value {
            Some(v) => header_value(headers@, name@) == Some(v@),
            None => header_value(headers@, name@) is None,
        },
{
    let mut i: usize = 0;
    assert(headers@.subrange(0, headers@.len() as int) =~= headers@);
    while i < headers.len()
        invariant
            i <= headers.len(),
            header_value(headers@, name@) == header_value(headers@.subrange(i as int, headers@.len() as int), name@),
        decreases headers.len() - i,
    {
        let ghost rest = headers@.subrange(i as int, headers@.len() as int);
        assert(rest.drop_first() =~= headers@.subrange(i + 1, headers@.len() as int));
        if names_match(headers[i].name.as_str(), name) {
            return Some(&headers[i].value);
        }
        i += 1;
    }
    None
}

/// Passes the request headers through the access gate at the instant `now`
/// (seconds since the epoch): the claims of the bearer token when the
/// authority accepts it, the reason for the rejection otherwise.
pub fn authorize_at(headers: &Vec<Header>, authority: &TokenAuthority, now: i64) -> (result: Result<Claims, Rejection>)
    ensures
        passage_view(result) == gate_verdict(headers@, authority.secret(), now as int),
{
    match find_header(headers, "Authorization") {
        None => Err(Rejection::MissingHeader),
        Some(value) => match strip_prefix(value.as_str(), "Bearer ") {
            None => Err(Rejection::MalformedHeader),
            Some(token) => match authority.verify_at(token.as_str(), now) {
                Ok(claims) => Ok(claims),
                Err(error) => Err(Rejection::Token(error)),
            },
        },
    }
}

impl GateState {
    /// The state that a gate result leaves the request in.
    pub fn after(result: Result<Claims, Rejection>) -> (state: GateState)
        ensures
            match result {
                Ok(claims) => state@ == GateView::Authenticated(claims@),
                Err(_) => state@ == GateView::Unauthenticated,
            },
    {
        match result {
            Ok(claims) => GateState::Authenticated(claims),
            Err(_) => GateState::Unauthenticated,
        }
    }
}

} // verus!
