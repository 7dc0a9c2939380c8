//! Password digests and session tokens.
//!
//! Digests are bcrypt's. Tokens are compact HS256 tokens whose payload holds
//! the subject and the second of expiry; the signature is checked by the
//! decoder, the expiry here, so that what a token yields at a given second is
//! a function of the token, the secret and that second.

use crate::auth::models::{Claims, ClaimsView};
use crate::clock::unix_now;
use crate::config::Config;
use jsonwebtoken::errors::ErrorKind;
use jsonwebtoken::{DecodingKey, EncodingKey, Header, Validation};
use serde_json::Value;
use vstd::prelude::*;
use vstd::string::*;

verus! {

/// Why a session token could not be issued or accepted.
#[derive(Debug)]
pub enum JWTError {
    /// The token could not be built or signed; holds the cause.
    CreationFailed(String),
    /// The token is well formed but its signature, its algorithm or its claims
    /// were refused; holds the cause.
    ValidationFailed(String),
    /// The signature is good and the expiry has been reached.
    Expired,
    /// The text is not well formed as a token: it lacks the three parts, or a
    /// part is not encoded as it has to be.
    InvalidFormat,
}

/// The mathematical value of [`JWTError`].
pub enum JwtFailure {
    CreationFailed(Seq<char>),
    ValidationFailed(Seq<char>),
    Expired,
    InvalidFormat,
}

impl View for JWTError {
    type V = JwtFailure;

    open spec fn view(&self) -> JwtFailure {
        match self {
            JWTError::CreationFailed(cause) => JwtFailure::CreationFailed(cause@),
            JWTError::ValidationFailed(cause) => JwtFailure::ValidationFailed(cause@),
            JWTError::Expired => JwtFailure::Expired,
            JWTError::InvalidFormat => JwtFailure::InvalidFormat,
        }
    }
}

impl JwtFailure {
    /// The sentence that describes the failure.
    pub open spec fn message(self) -> Seq<char> {
        match self {
            JwtFailure::CreationFailed(cause) => "JWT creation error: "@ + cause,
            JwtFailure::ValidationFailed(cause) => "JWT validation error: "@ + cause,
            JwtFailure::Expired => "JWT has expired"@,
            JwtFailure::InvalidFormat => "Invalid JWT format"@,
        }
    }
}

impl JWTError {
    /// Renders the failure as a sentence, cause included.
    pub fn message(&self) -> (text: String)
        ensures
            text@ == self@.message(),
    {
        match self {
            JWTError::CreationFailed(cause) => String::from_str("JWT creation error: ").concat(
                cause.as_str(),
            ),
            JWTError::ValidationFailed(cause) => String::from_str("JWT validation error: ").concat(
                cause.as_str(),
            ),
            JWTError::Expired => String::from_str("JWT has expired"),
            JWTError::InvalidFormat => String::from_str("Invalid JWT format"),
        }
    }
}

/// How the decoder classified a token that it refused.
#[derive(Debug, Clone, Copy, PartialEq, Eq, Structural)]
pub enum DecodeFault {
    /// The text does not split into the three parts of a token.
    InvalidToken,
    /// The third part is not the signature of the first two under the secret.
    InvalidSignature,
    /// A part is not what it has to be encoded as: base64url outside, JSON in
    /// UTF-8 inside.
    Encoding,
    /// Any other refusal: the algorithm, or a claim the decoder insists on.
    Other,
}

/// A refusal by the decoder, with its own description of the cause.
#[derive(Debug)]
pub struct DecodeError {
    pub kind: DecodeFault,
    pub message: String,
}

/// The mathematical value of [`DecodeError`].
pub struct DecodeErrorView {
    pub kind: DecodeFault,
    pub message: Seq<char>,
}

impl View for DecodeError {
    type V = DecodeErrorView;

    open spec fn view(&self) -> DecodeErrorView {
        DecodeErrorView { kind: self.kind, message: self.message@ }
    }
}

/// The two claims of a payload whose signature was good, each as far as the
/// payload held it in the expected form: `sub` as text, `exp` as a whole
/// number of seconds.
#[derive(Debug)]
pub struct RawClaims {
    pub sub: Option<String>,
    pub exp: Option<u64>,
}

/// The mathematical value of [`RawClaims`].
pub struct RawClaimsView {
    pub sub: Option<Seq<char>>,
    pub exp: Option<u64>,
}

impl View for RawClaims {
    type V = RawClaimsView;

    open spec fn view(&self) -> RawClaimsView {
        RawClaimsView {
            sub: match self.sub {
                Some(s) => Some(s@),
                None => None,
            },
            exp: self.exp,
        }
    }
}

/// The compact HS256 token that `jsonwebtoken::encode` builds for the claims
/// `sub` and `exp` under `secret`, or the encoder's description of its failure.
pub uninterp spec fn hs256_encoded(sub: Seq<char>, exp: nat, secret: Seq<char>) -> Result<
    Seq<char>,
    Seq<char>,
>;

/// What `jsonwebtoken::decode` makes of `token` under `secret` when it checks
/// shape, algorithm and HS256 signature and leaves the clock aside.
pub uninterp spec fn hs256_decoded(token: Seq<char>, secret: Seq<char>) -> Result<
    RawClaimsView,
    DecodeErrorView,
>;

/// `other` keeps `token` up to and including the dot at `dot`, which is the
/// last dot of `token`, and differs from it afterwards.
pub open spec fn differs_after(token: Seq<char>, other: Seq<char>, dot: int) -> bool {
    &&& 0 <= dot < token.len()
    &&& token[dot] == '.'
    &&& forall|j: int| dot < j < token.len() ==> token[j] != '.'
    &&& dot < other.len()
    &&& other.subrange(0, dot + 1) == token.subrange(0, dot + 1)
    &&& other != token
}

/// What follows the last dot of `token` was replaced by anything else.
pub open spec fn tail_altered(token: Seq<char>, other: Seq<char>) -> bool {
    exists|dot: int| #[trigger] differs_after(token, other, dot)
}

/// The signature part of `token` was replaced by another part: what follows
/// the last dot of `token` was replaced by something without a dot in it.
pub open spec fn signature_altered(token: Seq<char>, other: Seq<char>) -> bool {
    exists|dot: int|
        #[trigger] differs_after(token, other, dot) && forall|j: int|
            dot < j < other.len() ==> other[j] != '.'
}

/// The mathematical value of an encoder result.
pub open spec fn text_view(r: Result<String, String>) -> Result<Seq<char>, Seq<char>> {
    match r {
        Ok(token) => Ok(token@),
        Err(cause) => Err(cause@),
    }
}

/// The mathematical value of a decoder result.
pub open spec fn decoding_view(r: Result<RawClaims, DecodeError>) -> Result<
    RawClaimsView,
    DecodeErrorView,
> {
    match r {
        Ok(raw) => Ok(raw@),
        Err(e) => Err(e@),
    }
}

/// The decoder's answer for a good token that holds exactly `sub` and `exp`.
pub open spec fn decoded_claims(sub: Seq<char>, exp: usize) -> Result<
    RawClaimsView,
    DecodeErrorView,
> {
    Ok(RawClaimsView { sub: Some(sub), exp: Some(exp as u64) })
}

/// The decoder refused for the signature.
pub open spec fn refused_for_signature(d: Result<RawClaimsView, DecodeErrorView>) -> bool {
    d matches Err(e) && e.kind == DecodeFault::InvalidSignature
}

/// The mathematical value of an issuance result.
pub open spec fn token_view(r: Result<String, JWTError>) -> Result<Seq<char>, JwtFailure> {
    match r {
        Ok(token) => Ok(token@),
        Err(e) => Err(e@),
    }
}

/// The mathematical value of a validation result.
pub open spec fn claims_view(r: Result<Claims, JWTError>) -> Result<ClaimsView, JwtFailure> {
    match r {
        Ok(claims) => Ok(claims@),
        Err(e) => Err(e@),
    }
}

/// The second at which a token issued at `now` for `hours` hours lapses.
pub open spec fn expiry(now: int, hours: nat) -> int {
    now + hours * 3600
}

/// What issuing a token for `sub` at second `now` yields: the expiry has to be
/// a second that the claims can hold, and the encoder has to sign.
pub open spec fn issuance_outcome(sub: Seq<char>, secret: Seq<char>, hours: nat, now: int) -> Result<
    Seq<char>,
    JwtFailure,
> {
    let exp = expiry(now, hours);
    if 0 <= exp <= usize::MAX {
        match hs256_encoded(sub, exp as nat, secret) {
            Ok(token) => Ok(token),
            Err(cause) => Err(JwtFailure::CreationFailed(cause)),
        }
    } else {
        Err(JwtFailure::CreationFailed("expiry out of range"@))
    }
}

/// How a refusal by the decoder is reported: a text without the three parts
/// and a part that is wrongly encoded are both malformed; a refusal of a well
/// formed token is a failed validation, with the decoder's cause.
pub open spec fn decode_failure(e: DecodeErrorView) -> JwtFailure {
    match e.kind {
        DecodeFault::InvalidToken => JwtFailure::InvalidFormat,
        DecodeFault::Encoding => JwtFailure::InvalidFormat,
        DecodeFault::InvalidSignature => JwtFailure::ValidationFailed(e.message),
        DecodeFault::Other => JwtFailure::ValidationFailed(e.message),
    }
}

/// What the claims of a well-signed payload yield at second `now`: both claims
/// have to be there, and the token is good strictly before its expiry.
pub open spec fn claims_outcome(raw: RawClaimsView, now: int) -> Result<ClaimsView, JwtFailure> {
    match (raw.sub, raw.exp) {
        (Some(sub), Some(exp)) if exp <= usize::MAX => {
            if now < exp {
                Ok(ClaimsView { sub, exp: exp as nat })
            } else {
                Err(JwtFailure::Expired)
            }
        },
        _ => Err(JwtFailure::ValidationFailed("incomplete claims"@)),
    }
}

/// What a token for `sub` that lapses at second `exp` yields at second `at`:
/// its claims before `exp`, and from `exp` on the report that it has expired.
pub open spec fn lifetime_outcome(sub: Seq<char>, exp: int, at: int) -> Result<
    ClaimsView,
    JwtFailure,
> {
    if at < exp {
        Ok(ClaimsView { sub, exp: exp as nat })
    } else {
        Err(JwtFailure::Expired)
    }
}

/// The token was refused as invalid: not accepted, and not reported as expired
/// or as malformed.
pub open spec fn refused_as_invalid(r: Result<ClaimsView, JwtFailure>) -> bool {
    r matches Err(JwtFailure::ValidationFailed(_))
}

/// The token was refused for what it is, not for the hour: not accepted, and
/// not reported as expired.
pub open spec fn refused_unexpired(r: Result<ClaimsView, JwtFailure>) -> bool {
    r is Err && !(r matches Err(JwtFailure::Expired))
}

/// What holds of the result of issuing a token for `sub` at second `now`: it
/// is the outcome of the issuance; a token is accepted for `sub` before its
/// expiry and reported as expired from then on; a token whose signature part
/// was replaced by another is refused as invalid at every second; and whatever
/// replaces what follows its last dot, the token is never accepted and never
/// reported as expired.
pub open spec fn issued(
    r: Result<String, JWTError>,
    sub: Seq<char>,
    secret: Seq<char>,
    hours: nat,
    now: int,
) -> bool {
    &&& token_view(r) == issuance_outcome(sub, secret, hours, now)
    &&& r matches Ok(token) ==> forall|at: int| #[trigger]
        validation_outcome(token@, secret, at) == lifetime_outcome(sub, expiry(now, hours), at)
    &&& r matches Ok(token) ==> forall|other: Seq<char>, at: int|
        signature_altered(token@, other) ==> refused_as_invalid(
            #[trigger] validation_outcome(other, secret, at),
        )
    &&& r matches Ok(token) ==> forall|other: Seq<char>, at: int|
        tail_altered(token@, other) ==> refused_unexpired(
            #[trigger] validation_outcome(other, secret, at),
        )
}

/// What validating `token` under `secret` at second `now` yields: the decoder
/// speaks first, the clock only once the signature is good.
pub open spec fn validation_outcome(token: Seq<char>, secret: Seq<char>, now: int) -> Result<
    ClaimsView,
    JwtFailure,
> {
    match hs256_decoded(token, secret) {
        Ok(raw) => claims_outcome(raw, now),
        Err(e) => Err(decode_failure(e)),
    }
}

/// The error type of the `bcrypt` crate, carried through unopened.
#[verifier::external_type_specification]
#[verifier::external_body]
pub struct ExBcryptError(bcrypt::BcryptError);

/// What `bcrypt::verify` answers for `password` against `digest`: whether they
/// match, or `None` where it rejects the digest as malformed.
pub uninterp spec fn bcrypt_verdict(password: Seq<char>, digest: Seq<char>) -> Option<bool>;

/// `digest` has the outer shape of a bcrypt digest: sixty ASCII characters.
pub open spec fn digest_shaped(digest: Seq<char>) -> bool {
    digest.len() == 60 && vstd::utf8::is_ascii_chars(digest)
}

/// The mathematical value of a verification result.
pub open spec fn verdict_view(r: Result<bool, bcrypt::BcryptError>) -> Option<bool> {
    match r {
        Ok(matches) => Some(matches),
        Err(_) => None,
    }
}

/// Digests `password` with `bcrypt::hash` at the crate's default cost, under a
/// salt that the call draws at random.
///
/// Trusted: a digest that comes back is one that `bcrypt::verify` accepts for
/// the same password; it has sixty ASCII characters and opens with the
/// version `2b` and the cost 12. The call fails only where no salt could be drawn.
#[verifier::external_body]
pub fn hash_password(password: &str) -> (r: Result<String, bcrypt::BcryptError>)
    ensures
        r matches Ok(digest) ==> bcrypt_verdict(password@, digest@) == Some(true),
        r matches Ok(digest) ==> digest_shaped(digest@) && digest@.subrange(0, 7) == "$2b$12$"@,
{
    bcrypt::hash(password, bcrypt::DEFAULT_COST)
}

/// Checks `password` against `hash` with `bcrypt::verify`, which recomputes the
/// digest under the salt and cost that `hash` holds. It fails only on a
/// malformed `hash`.
///
/// Trusted: the result is the one named by [`bcrypt_verdict`], and a `hash`
/// that is not sixty ASCII characters is an error whatever the password.
#[verifier::external_body]
pub fn verify_password(password: &str, hash: &str) -> (r: Result<bool, bcrypt::BcryptError>)
    ensures
        verdict_view(r) == bcrypt_verdict(password@, hash@),
        r is Ok ==> digest_shaped(hash@),
{
    bcrypt::verify(password, hash)
}

/// Calls `jsonwebtoken::encode` with the default header (HS256) on the claims
/// object `{"sub": sub, "exp": exp}` and a key made from `secret`.
///
/// Trusted: the result is the one named by [`hs256_encoded`]; a token that
/// comes back decodes under the same secret to exactly these two claims; the
/// decoder refuses whatever differs from it after its last dot; and where
/// what stands there instead has no dot in it, it refuses for the
/// signature.
#[verifier::external_body]
fn encode_hs256(sub: &str, exp: usize, secret: &str) -> (r: Result<String, String>)
    ensures
        text_view(r) == hs256_encoded(sub@, exp as nat, secret@),
        r matches Ok(token) ==> hs256_decoded(token@, secret@) == decoded_claims(sub@, exp),
        r matches Ok(token) ==> forall|other: Seq<char>| #[trigger]
            tail_altered(token@, other) ==> hs256_decoded(other, secret@) is Err,
        r matches Ok(token) ==> forall|other: Seq<char>| #[trigger]
            signature_altered(token@, other) ==> refused_for_signature(
                hs256_decoded(other, secret@),
            ),
{
    let mut claims = serde_json::Map::new();
    claims.insert(String::from("sub"), Value::from(sub));
    claims.insert(String::from("exp"), Value::from(exp));
    let key = EncodingKey::from_secret(secret.as_bytes());
    match jsonwebtoken::encode(&Header::default(), &claims, &key) {
        Ok(token) => Ok(token),
        Err(e) => Err(e.to_string()),
    }
}

/// Calls `jsonwebtoken::decode` with the default validation (HS256, `exp`
/// required) and its comparison against the clock switched off, then reads
/// `sub` and `exp` out of the payload. Of the decoder's kinds of error, its
/// three for a part that does not decode (base64, JSON, UTF-8) are handed on
/// as `Encoding`.
///
/// Trusted: the result is the one named by [`hs256_decoded`].
#[verifier::external_body]
fn decode_hs256(token: &str, secret: &str) -> (r: Result<RawClaims, DecodeError>)
    ensures
        decoding_view(r) == hs256_decoded(token@, secret@),
{
    let mut validation = Validation::default();
    validation.validate_exp = false;
    let key = DecodingKey::from_secret(secret.as_bytes());
    let claims = match jsonwebtoken::decode::<Value>(token, &key, &validation) {
        Ok(data) => data.claims,
        Err(e) => return Err(DecodeError { message: e.to_string(), kind: match e.kind() {
            ErrorKind::InvalidToken => DecodeFault::InvalidToken,
            ErrorKind::InvalidSignature => DecodeFault::InvalidSignature,
            ErrorKind::Base64(_) => DecodeFault::Encoding,
            ErrorKind::Json(_) => DecodeFault::Encoding,
            ErrorKind::Utf8(_) => DecodeFault::Encoding,
            _ => DecodeFault::Other,
        } }),
    };
    Ok(RawClaims { sub: claims.get("sub").and_then(Value::as_str).map(String::from), exp: claims.get("exp").and_then(Value::as_u64) })
}

/// Decides on the claims of a payload whose signature was good, at second `now`.
pub fn check_claims(raw: RawClaims, now: i64) -> (r: Result<Claims, JWTError>)
    ensures
        claims_view(r) == claims_outcome(raw@, now as int),
{
    match (raw.sub, raw.exp) {
        (Some(sub), Some(exp)) => {
            if exp > usize::MAX as u64 {
                Err(JWTError::ValidationFailed(String::from_str("incomplete claims")))
            } else if (now as i128) < (exp as i128) {
                Ok(Claims { sub, exp: exp as usize })
            } else {
                Err(JWTError::Expired)
            }
        },
        _ => Err(JWTError::ValidationFailed(String::from_str("incomplete claims"))),
    }
}

/// Reports a refusal by the decoder.
pub fn report_decode_error(e: DecodeError) -> (r: JWTError)
    ensures
        r@ == decode_failure(e@),
{
    match e.kind {
        DecodeFault::InvalidToken => JWTError::InvalidFormat,
        DecodeFault::Encoding => JWTError::InvalidFormat,
        DecodeFault::InvalidSignature => JWTError::ValidationFailed(e.message),
        DecodeFault::Other => JWTError::ValidationFailed(e.message),
    }
}

/// Issues a token for `user_id` as of second `now`, good for the configured
/// number of hours.
///
/// A token that comes back is accepted under the same secret, for the same
/// subject, at every second before its expiry, and is reported as expired from
/// its expiry on. Replacing its signature part by another gets it refused as
/// invalid at every second, expired or not.
pub fn create_jwt_at(user_id: &str, config: &Config, now: i64) -> (r: Result<String, JWTError>)
    ensures
        issued(r, user_id@, config.jwt_secret@, config.jwt_expiration_hours as nat, now as int),
{
    let exp: i128 = now as i128 + (config.jwt_expiration_hours as i128) * 3600;
    if exp < 0 || exp > usize::MAX as i128 {
        return Err(JWTError::CreationFailed(String::from_str("expiry out of range")));
    }
    match encode_hs256(user_id, exp as usize, config.jwt_secret.as_str()) {
        Ok(token) => Ok(token),
        Err(cause) => Err(JWTError::CreationFailed(cause)),
    }
}

/// Issues a token for `user_id` as of the current second. What holds of a
/// token issued at a given second holds of this one for the second that the
/// clock showed, which is not before the epoch.
pub fn create_jwt(user_id: &str, config: &Config) -> (r: Result<String, JWTError>)
    ensures
        exists|now: int|
            0 <= now <= i64::MAX && #[trigger] issued(
                r,
                user_id@,
                config.jwt_secret@,
                config.jwt_expiration_hours as nat,
                now,
            ),
{
    let now = unix_now();
    create_jwt_at(user_id, config, now)
}

/// Validates `token` as of second `now`: shape and signature first, then the
/// claims, then the expiry.
pub fn validate_jwt_at(token: &str, config: &Config, now: i64) -> (r: Result<Claims, JWTError>)
    ensures
        claims_view(r) == validation_outcome(token@, config.jwt_secret@, now as int),
{
    match decode_hs256(token, config.jwt_secret.as_str()) {
        Ok(raw) => check_claims(raw, now),
        Err(e) => Err(report_decode_error(e)),
    }
}

/// Validates `token` as of the current second.
pub fn validate_jwt(token: &str, config: &Config) -> (r: Result<Claims, JWTError>)
    ensures
        exists|now: int|
            0 <= now <= i64::MAX && claims_view(r) == #[trigger] validation_outcome(
                token@,
                config.jwt_secret@,
                now,
            ),
{
    let now = unix_now();
    validate_jwt_at(token, config, now)
}

/// A token that decodes under the secret to the claims `sub` and `exp` is
/// accepted for `sub` at every second before `exp`, and reported as expired at
/// `exp` and at every second after it.
pub proof fn lemma_token_lifetime(
    token: Seq<char>,
    secret: Seq<char>,
    sub: Seq<char>,
    exp: usize,
    at: int,
)
    requires
        hs256_decoded(token, secret) == decoded_claims(sub, exp),
    ensures
        validation_outcome(token, secret, at) == lifetime_outcome(sub, exp as int, at),
{
}

/// A token that the decoder refuses is refused whatever the clock says: it is
/// never accepted and never reported as expired, and the report is the same at
/// any two seconds.
pub proof fn lemma_refusal_ignores_clock(token: Seq<char>, secret: Seq<char>, at: int, later: int)
    requires
        hs256_decoded(token, secret) is Err,
    ensures
        validation_outcome(token, secret, at) == validation_outcome(token, secret, later),
        validation_outcome(token, secret, at) is Err,
        !(validation_outcome(token, secret, at) matches Err(JwtFailure::Expired)),
{
}

} // verus!
