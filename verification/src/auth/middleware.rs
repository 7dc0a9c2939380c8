//! The guard in front of the protected routes: it reads the bearer token of a
//! request, validates it, and attaches the identity it resolves.

use crate::auth::models::UserId;
use crate::auth::utils::{validate_jwt_at, validation_outcome, JWTError, JwtFailure};
use crate::clock::unix_now;
use crate::config::Config;
use crate::status::{INTERNAL_SERVER_ERROR, UNAUTHORIZED};
use axum::http::{Extensions, HeaderMap, HeaderValue};
use vstd::prelude::*;
use vstd::string::*;

verus! {

/// The header map of the `http` crate, carried through unopened.
#[verifier::external_type_specification]
#[verifier::external_body]
#[verifier::reject_recursive_types(T)]
pub struct ExHeaderMap<T>(HeaderMap<T>);

/// A header value of the `http` crate, carried through unopened.
#[verifier::external_type_specification]
#[verifier::external_body]
pub struct ExHeaderValue(HeaderValue);

/// The per-request type map of the `http` crate, carried through unopened.
#[verifier::external_type_specification]
#[verifier::external_body]
pub struct ExExtensions(Extensions);

/// The first value that `headers` holds under `name`, names compared without
/// regard to case, where that value is visible ASCII text.
pub uninterp spec fn header_text(headers: HeaderMap, name: Seq<char>) -> Option<Seq<char>>;

/// The identity that `extensions` holds, if one was attached.
pub uninterp spec fn attached_identity(extensions: Extensions) -> Option<Seq<char>>;

/// The mathematical value of an optional text.
pub open spec fn text_option_view(t: Option<String>) -> Option<Seq<char>> {
    match t {
        Some(text) => Some(text@),
        None => None,
    }
}

/// The mathematical value of an optional identity.
pub open spec fn identity_option_view(id: Option<UserId>) -> Option<Seq<char>> {
    match id {
        Some(user) => Some(user@),
        None => None,
    }
}

/// Calls `HeaderMap::get` with `name` and `HeaderValue::to_str` on what it finds.
///
/// Trusted: the result is the one named by [`header_text`].
#[verifier::external_body]
fn header_str(headers: &HeaderMap, name: &str) -> (r: Option<String>)
    ensures
        text_option_view(r) == header_text(*headers, name@),
{
    match headers.get(name) {
        Some(value) => match value.to_str() {
            Ok(text) => Some(text.to_owned()),
            Err(_) => None,
        },
        None => None,
    }
}

/// Calls `Extensions::insert` with `id`, which replaces an identity attached before.
///
/// Trusted: afterwards the map holds `id` as its identity.
#[verifier::external_body]
fn attach_identity(extensions: &mut Extensions, id: UserId)
    ensures
        attached_identity(*final(extensions)) == Some(id@),
{
    extensions.insert(id);
}

/// Calls `Extensions::get` for the identity and clones what it finds.
///
/// Trusted: the result is the one named by [`attached_identity`].
#[verifier::external_body]
fn find_identity(extensions: &Extensions) -> (r: Option<UserId>)
    ensures
        identity_option_view(r) == attached_identity(*extensions),
{
    extensions.get::<UserId>().cloned()
}

/// The token of an `Authorization` value: what follows the scheme `Bearer` and
/// one space, where the value starts with them.
pub open spec fn bearer_token(value: Seq<char>) -> Option<Seq<char>> {
    if value.len() >= 7 && value.subrange(0, 7) == "Bearer "@ {
        Some(value.subrange(7, value.len() as int))
    } else {
        None
    }
}

/// The token that a request presents: the bearer token of its first
/// `Authorization` header.
pub open spec fn presented_token(headers: HeaderMap) -> Option<Seq<char>> {
    match header_text(headers, "Authorization"@) {
        Some(value) => bearer_token(value),
        None => None,
    }
}

/// Why the guard turned a request away.
#[derive(Debug)]
pub enum Rejection {
    /// The request presents no bearer token.
    MissingToken,
    /// The token that the request presents was refused.
    Token(JWTError),
}

/// The mathematical value of [`Rejection`].
pub enum RejectionView {
    MissingToken,
    Token(JwtFailure),
}

impl View for Rejection {
    type V = RejectionView;

    open spec fn view(&self) -> RejectionView {
        match self {
            Rejection::MissingToken => RejectionView::MissingToken,
            Rejection::Token(e) => RejectionView::Token(e@),
        }
    }
}

/// The status that answers a token failure: every refusal of a presented token
/// looks the same from outside, a fault of the service does not.
pub open spec fn failure_status(e: JwtFailure) -> u16 {
    match e {
        JwtFailure::CreationFailed(_) => INTERNAL_SERVER_ERROR,
        _ => UNAUTHORIZED,
    }
}

impl RejectionView {
    /// The status that answers the request: a request without token is turned
    /// away like one with a token that was refused.
    pub open spec fn status(self) -> u16 {
        match self {
            RejectionView::MissingToken => UNAUTHORIZED,
            RejectionView::Token(e) => failure_status(e),
        }
    }

    /// The class of the failure, for the log. It is one of five fixed words
    /// and holds nothing of what the request presented.
    pub open spec fn class(self) -> Seq<char> {
        match self {
            RejectionView::MissingToken => "missing or malformed Authorization header"@,
            RejectionView::Token(JwtFailure::Expired) => "expired token"@,
            RejectionView::Token(JwtFailure::InvalidFormat) => "malformed token"@,
            RejectionView::Token(JwtFailure::ValidationFailed(_)) => "invalid token"@,
            RejectionView::Token(JwtFailure::CreationFailed(_)) => "internal fault"@,
        }
    }

    /// The warning that records the rejection of a request to `route`.
    pub open spec fn warning(self, route: Seq<char>) -> Seq<char> {
        "Authentication failed on "@ + route + ": "@ + self.class()
    }
}

/// What the guard decides for a request at second `now`: the identity it
/// admits, or why it turns the request away.
pub open spec fn admission(token: Option<Seq<char>>, secret: Seq<char>, now: int) -> Result<
    Seq<char>,
    RejectionView,
> {
    match token {
        None => Err(RejectionView::MissingToken),
        Some(t) => match validation_outcome(t, secret, now) {
            Ok(claims) => Ok(claims.sub),
            Err(e) => Err(RejectionView::Token(e)),
        },
    }
}

/// The guard admits a request that presents `token` as `id` at every second
/// before `exp`, and turns it away as expired from `exp` on.
pub open spec fn admitted_until(token: Seq<char>, secret: Seq<char>, id: Seq<char>, exp: int) -> bool {
    forall|at: int| #[trigger]
        admission(Some(token), secret, at) == (if at < exp {
            Ok(id)
        } else {
            Err(RejectionView::Token(JwtFailure::Expired))
        })
}

/// How the guard carries a decision out: an admitted request leaves with the
/// identity attached, a rejected one leaves as it came.
pub open spec fn guarded(
    decision: Result<Seq<char>, RejectionView>,
    r: Result<(), Rejection>,
    before: Extensions,
    after: Extensions,
) -> bool {
    match decision {
        Ok(id) => r is Ok && attached_identity(after) == Some(id),
        Err(why) => r matches Err(e) && e@ == why && after == before,
    }
}

/// What a handler behind the guard is handed: the attached identity, or the
/// fault that none is attached.
pub open spec fn handed_identity(extensions: Extensions, r: Result<UserId, (u16, String)>) -> bool {
    match attached_identity(extensions) {
        Some(id) => r matches Ok(user) && user@ == id,
        None => r matches Err(e) && e.0 == INTERNAL_SERVER_ERROR && e.1@
            == "User ID not found in request extensions."@,
    }
}

/// The mathematical value of the guard's decision.
pub open spec fn admission_view(r: Result<UserId, Rejection>) -> Result<Seq<char>, RejectionView> {
    match r {
        Ok(id) => Ok(id@),
        Err(why) => Err(why@),
    }
}

/// Takes the bearer token out of an `Authorization` value.
pub fn strip_scheme(value: &str) -> (r: Option<String>)
    ensures
        text_option_view(r) == bearer_token(value@),
{
    let n = value.unicode_len();
    if n < 7 {
        return None;
    }
    let scheme = String::from_str(value.substring_char(0, 7));
    if scheme == String::from_str("Bearer ") {
        Some(String::from_str(value.substring_char(7, n)))
    } else {
        None
    }
}

/// Takes the bearer token out of the headers of a request.
pub fn extract_token(headers: &HeaderMap) -> (r: Option<String>)
    ensures
        text_option_view(r) == presented_token(*headers),
{
    match header_str(headers, "Authorization") {
        Some(value) => strip_scheme(value.as_str()),
        None => None,
    }
}

/// The status that answers a token failure.
pub fn rejection_status(e: &JWTError) -> (status: u16)
    ensures
        status == failure_status(e@),
{
    match e {
        JWTError::CreationFailed(_) => INTERNAL_SERVER_ERROR,
        _ => UNAUTHORIZED,
    }
}

impl Rejection {
    /// The status that answers the request.
    pub fn status(&self) -> (status: u16)
        ensures
            status == self@.status(),
    {
        match self {
            Rejection::MissingToken => UNAUTHORIZED,
            Rejection::Token(e) => rejection_status(e),
        }
    }

    /// The class of the failure, for the log.
    pub fn class(&self) -> (class: &'static str)
        ensures
            class@ == self@.class(),
    {
        match self {
            Rejection::MissingToken => "missing or malformed Authorization header",
            Rejection::Token(JWTError::Expired) => "expired token",
            Rejection::Token(JWTError::InvalidFormat) => "malformed token",
            Rejection::Token(JWTError::ValidationFailed(_)) => "invalid token",
            Rejection::Token(JWTError::CreationFailed(_)) => "internal fault",
        }
    }

    /// The warning that records the rejection of a request to `route`: the
    /// route and the class of the failure, and nothing of the token.
    pub fn warning(&self, route: &str) -> (text: String)
        ensures
            text@ == self@.warning(route@),
    {
        String::from_str("Authentication failed on ").concat(route).concat(": ").concat(
            self.class(),
        )
    }
}

/// Decides on a request as of second `now`, without touching it.
pub fn authenticate_at(headers: &HeaderMap, config: &Config, now: i64) -> (r: Result<
    UserId,
    Rejection,
>)
    ensures
        admission_view(r) == admission(presented_token(*headers), config.jwt_secret@, now as int),
{
    match extract_token(headers) {
        None => Err(Rejection::MissingToken),
        Some(token) => match validate_jwt_at(token.as_str(), config, now) {
            Ok(claims) => Ok(UserId(claims.sub)),
            Err(e) => Err(Rejection::Token(e)),
        },
    }
}

/// Guards a protected route as of second `now`: a request is admitted exactly
/// when it presents a token that validates, and then the token's subject is
/// attached to the request for the handlers behind; a rejected request is left
/// as it came.
pub fn auth_middleware_at(
    headers: &HeaderMap,
    extensions: &mut Extensions,
    config: &Config,
    now: i64,
) -> (r: Result<(), Rejection>)
    ensures
        guarded(
            admission(presented_token(*headers), config.jwt_secret@, now as int),
            r,
            *old(extensions),
            *final(extensions),
        ),
{
    match authenticate_at(headers, config, now) {
        Ok(id) => {
            attach_identity(extensions, id);
            Ok(())
        },
        Err(why) => Err(why),
    }
}

/// Guards a protected route as of the current second.
pub fn auth_middleware(headers: &HeaderMap, extensions: &mut Extensions, config: &Config) -> (r:
    Result<(), Rejection>)
    ensures
        exists|now: int|
            0 <= now <= i64::MAX && guarded(
                #[trigger] admission(presented_token(*headers), config.jwt_secret@, now),
                r,
                *old(extensions),
                *final(extensions),
            ),
{
    let now = unix_now();
    auth_middleware_at(headers, extensions, config, now)
}

impl UserId {
    /// Hands a handler the identity that the guard attached. Where none is
    /// attached the route was wired without the guard: a fault of the service.
    pub fn from_request_parts(extensions: &Extensions) -> (r: Result<UserId, (u16, String)>)
        ensures
            handed_identity(*extensions, r),
    {
        match find_identity(extensions) {
            Some(id) => Ok(id),
            None => Err(
                (
                    INTERNAL_SERVER_ERROR,
                    String::from_str("User ID not found in request extensions."),
                ),
            ),
        }
    }
}

} // verus!
