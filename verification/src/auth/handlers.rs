//! Registration and login, each as steps between the calls to the store: a
//! step takes what the store answered and says what to ask next or what to
//! answer the caller.

use crate::auth::models::{
    AuthResponse, AuthResponseView, LoginRequest, SignupRequest, User, UserView,
};
use crate::auth::middleware::admitted_until;
use crate::auth::utils::{
    bcrypt_verdict, create_jwt_at, digest_shaped, expiry, hash_password, issuance_outcome,
    verify_password, JwtFailure,
};
use crate::clock::unix_now;
use crate::config::Config;
use crate::db::mongo::{MongoError, MongoFailure};
use crate::db::oid::{hex_text, ObjectId};
use crate::status::{
    reply, Reply, ReplyView, BAD_REQUEST, CONFLICT, CREATED, INTERNAL_SERVER_ERROR, UNAUTHORIZED,
};
use vstd::prelude::*;
use vstd::string::*;

verus! {

/// The mathematical value of the store's answer to a lookup by user name.
pub open spec fn found_view(found: Result<Option<User>, MongoError>) -> Result<
    Option<UserView>,
    MongoFailure,
> {
    match found {
        Ok(Some(user)) => Ok(Some(user@)),
        Ok(None) => Ok(None),
        Err(e) => Err(e@),
    }
}

/// The mathematical value of a digest that may have failed to compute.
pub open spec fn digest_view(hashed: Result<String, bcrypt::BcryptError>) -> Option<Seq<char>> {
    match hashed {
        Ok(digest) => Some(digest@),
        Err(_) => None,
    }
}

/// The mathematical value of a step that goes on with a user name or answers.
pub open spec fn name_or_reply_view(step: Result<String, Reply>) -> Result<Seq<char>, ReplyView> {
    match step {
        Ok(name) => Ok(name@),
        Err(r) => Err(r@),
    }
}

/// The mathematical value of a step that goes on with a record or answers.
pub open spec fn user_or_reply_view(step: Result<User, Reply>) -> Result<UserView, ReplyView> {
    match step {
        Ok(user) => Ok(user@),
        Err(r) => Err(r@),
    }
}

/// The mathematical value of the answer to a login.
pub open spec fn login_view(r: Result<AuthResponse, Reply>) -> Result<AuthResponseView, ReplyView> {
    match r {
        Ok(body) => Ok(body@),
        Err(r) => Err(r@),
    }
}

/// First step of a registration: an empty user name or password is answered
/// at once, anything else goes on to a lookup of the user name.
pub open spec fn signup_start(username: Seq<char>, password: Seq<char>) -> Result<
    Seq<char>,
    ReplyView,
> {
    if username.len() == 0 || password.len() == 0 {
        Err(reply(BAD_REQUEST, "Username and password cannot be empty"@))
    } else {
        Ok(username)
    }
}

/// What the lookup settles by itself: a taken name or a failing store is
/// answered, a free name is not.
pub open spec fn signup_lookup_reply(found: Result<Option<UserView>, MongoFailure>) -> Option<
    ReplyView,
> {
    match found {
        Ok(Some(_)) => Some(reply(CONFLICT, "Username already exists"@)),
        Ok(None) => None,
        Err(_) => Some(reply(INTERNAL_SERVER_ERROR, "Failed to check username availability"@)),
    }
}

/// The record to insert for a free name, given the digest of the password and
/// a fresh identifier; without a digest the registration is answered as failed.
pub open spec fn signup_record(username: Seq<char>, digest: Option<Seq<char>>, id: Seq<u8>) -> Result<
    UserView,
    ReplyView,
> {
    match digest {
        Some(d) => Ok(UserView { id: Some(id), username, password_hash: d }),
        None => Err(reply(INTERNAL_SERVER_ERROR, "Failed to process registration"@)),
    }
}

/// Second step of a registration, after the lookup.
pub open spec fn signup_continue(
    username: Seq<char>,
    found: Result<Option<UserView>, MongoFailure>,
    digest: Option<Seq<char>>,
    id: Seq<u8>,
) -> Result<UserView, ReplyView> {
    match signup_lookup_reply(found) {
        Some(r) => Err(r),
        None => signup_record(username, digest, id),
    }
}

/// Last step of a registration, after the insert.
pub open spec fn signup_finish(inserted: bool) -> ReplyView {
    if inserted {
        reply(CREATED, "User created successfully"@)
    } else {
        reply(INTERNAL_SERVER_ERROR, "Failed to register user"@)
    }
}

/// The record that a store holds under a user name, if any.
pub open spec fn lookup(store: Map<Seq<char>, UserView>, username: Seq<char>) -> Option<UserView> {
    if store.dom().contains(username) {
        Some(store[username])
    } else {
        None
    }
}

/// A whole registration against a store that answers truthfully and without
/// fault: the store afterwards, and the answer.
pub open spec fn signup_run(
    store: Map<Seq<char>, UserView>,
    username: Seq<char>,
    password: Seq<char>,
    digest: Option<Seq<char>>,
    id: Seq<u8>,
) -> (Map<Seq<char>, UserView>, ReplyView) {
    match signup_start(username, password) {
        Err(r) => (store, r),
        Ok(name) => match signup_continue(username, Ok(lookup(store, name)), digest, id) {
            Err(r) => (store, r),
            Ok(user) => (store.insert(user.username, user), signup_finish(true)),
        },
    }
}

/// The answer to a login whose password was right: the token as a bearer
/// token, or a fault of the service where none could be issued.
pub open spec fn bearer_or_fault(issued: Result<Seq<char>, JwtFailure>) -> Result<
    AuthResponseView,
    ReplyView,
> {
    match issued {
        Ok(token) => Ok(AuthResponseView { token, token_type: "Bearer"@ }),
        Err(_) => Err(reply(INTERNAL_SERVER_ERROR, "Login failed"@)),
    }
}

/// The answer to a login that failed for a fault of the service.
pub open spec fn login_fault() -> Result<AuthResponseView, ReplyView> {
    Err(reply(INTERNAL_SERVER_ERROR, "Login failed"@))
}

/// What a login yields at second `now`, given the store's answer for the user
/// name: unknown users and wrong passwords look the same from outside, and so
/// do all faults of the service.
pub open spec fn login_outcome(
    password: Seq<char>,
    secret: Seq<char>,
    hours: nat,
    found: Result<Option<UserView>, MongoFailure>,
    now: int,
) -> Result<AuthResponseView, ReplyView> {
    match found {
        Err(_) => Err(reply(INTERNAL_SERVER_ERROR, "Login failed"@)),
        Ok(None) => Err(reply(UNAUTHORIZED, "Invalid credentials"@)),
        Ok(Some(user)) => match bcrypt_verdict(password, user.password_hash) {
            None => Err(reply(INTERNAL_SERVER_ERROR, "Login failed"@)),
            Some(false) => Err(reply(UNAUTHORIZED, "Invalid credentials"@)),
            Some(true) => match user.id {
                None => Err(reply(INTERNAL_SERVER_ERROR, "Login failed"@)),
                Some(id) => bearer_or_fault(issuance_outcome(hex_text(id), secret, hours, now)),
            },
        },
    }
}

/// What holds of the answer to a login at second `now`: it is the outcome of
/// the login; a token in it gets its bearer past the guard as the user's
/// identifier, in hexadecimal, until the token lapses; and a stored digest
/// that lacks the shape of one is a fault of the service whatever the
/// password.
pub open spec fn logged_in(
    r: Result<AuthResponse, Reply>,
    password: Seq<char>,
    secret: Seq<char>,
    hours: nat,
    found: Result<Option<UserView>, MongoFailure>,
    now: int,
) -> bool {
    &&& login_view(r) == login_outcome(password, secret, hours, found, now)
    &&& r matches Ok(body) ==> {
        &&& found matches Ok(Some(user))
        &&& user.id matches Some(id)
        &&& admitted_until(body.token@, secret, hex_text(id), expiry(now, hours))
    }
    &&& (found matches Ok(Some(user)) && !digest_shaped(user.password_hash)) ==> login_view(r)
        == login_fault()
}

/// Opens a registration: checks the request and names the user to look up.
pub fn signup(payload: &SignupRequest) -> (step: Result<String, Reply>)
    ensures
        name_or_reply_view(step) == signup_start(payload.username@, payload.password@),
{
    if payload.username.as_str().is_empty() || payload.password.as_str().is_empty() {
        Err(Reply::new(BAD_REQUEST, "Username and password cannot be empty"))
    } else {
        Ok(payload.username.clone())
    }
}

/// Builds the record to insert from the digest and the identifier that were
/// drawn for it.
pub fn signup_register(
    payload: &SignupRequest,
    hashed: Result<String, bcrypt::BcryptError>,
    id: ObjectId,
) -> (step: Result<User, Reply>)
    ensures
        user_or_reply_view(step) == signup_record(payload.username@, digest_view(hashed), id@),
{
    match hashed {
        Ok(digest) => Ok(
            User { _id: Some(id), username: payload.username.clone(), password_hash: digest },
        ),
        Err(_) => Err(Reply::new(INTERNAL_SERVER_ERROR, "Failed to process registration")),
    }
}

/// Goes on with a registration once the store has answered the lookup: a free
/// name gets a record whose digest the password verifies against.
pub fn signup_after_lookup(payload: &SignupRequest, found: Result<Option<User>, MongoError>) -> (step:
    Result<User, Reply>)
    ensures
        exists|digest: Option<Seq<char>>, id: Seq<u8>|
            user_or_reply_view(step) == #[trigger] signup_continue(
                payload.username@,
                found_view(found),
                digest,
                id,
            ),
        step matches Ok(user) ==> bcrypt_verdict(payload.password@, user.password_hash@) == Some(
            true,
        ),
{
    match found {
        Ok(Some(_)) => {
            let r = Reply::new(CONFLICT, "Username already exists");
            assert(user_or_reply_view(Err(r)) == signup_continue(
                payload.username@,
                found_view(found),
                None,
                Seq::empty(),
            ));
            Err(r)
        },
        Err(_) => {
            let r = Reply::new(INTERNAL_SERVER_ERROR, "Failed to check username availability");
            assert(user_or_reply_view(Err(r)) == signup_continue(
                payload.username@,
                found_view(found),
                None,
                Seq::empty(),
            ));
            Err(r)
        },
        Ok(None) => {
            let hashed = hash_password(payload.password.as_str());
            let id = ObjectId::fresh();
            let step = signup_register(payload, hashed, id);
            assert(user_or_reply_view(step) == signup_continue(
                payload.username@,
                found_view(found),
                digest_view(hashed),
                id@,
            ));
            step
        },
    }
}

/// Closes a registration once the store has answered the insert.
pub fn signup_after_insert(inserted: Result<ObjectId, MongoError>) -> (r: Reply)
    ensures
        r@ == signup_finish(inserted is Ok),
{
    match inserted {
        Ok(_) => Reply::new(CREATED, "User created successfully"),
        Err(_) => Reply::new(INTERNAL_SERVER_ERROR, "Failed to register user"),
    }
}

/// Answers a login as of second `now`, given the store's answer for the user name.
pub fn login_at(
    payload: &LoginRequest,
    config: &Config,
    found: Result<Option<User>, MongoError>,
    now: i64,
) -> (r: Result<AuthResponse, Reply>)
    ensures
        logged_in(
            r,
            payload.password@,
            config.jwt_secret@,
            config.jwt_expiration_hours as nat,
            found_view(found),
            now as int,
        ),
{
    let user = match found {
        Ok(Some(user)) => user,
        Ok(None) => {
            return Err(Reply::new(UNAUTHORIZED, "Invalid credentials"));
        },
        Err(_) => {
            return Err(Reply::new(INTERNAL_SERVER_ERROR, "Login failed"));
        },
    };
    match verify_password(payload.password.as_str(), user.password_hash.as_str()) {
        Ok(true) => {},
        Ok(false) => {
            return Err(Reply::new(UNAUTHORIZED, "Invalid credentials"));
        },
        Err(_) => {
            return Err(Reply::new(INTERNAL_SERVER_ERROR, "Login failed"));
        },
    }
    let id = match user._id {
        Some(id) => id,
        None => {
            return Err(Reply::new(INTERNAL_SERVER_ERROR, "Login failed"));
        },
    };
    let user_id = id.to_hex();
    match create_jwt_at(user_id.as_str(), config, now) {
        Ok(token) => Ok(AuthResponse { token, token_type: String::from_str("Bearer") }),
        Err(_) => Err(Reply::new(INTERNAL_SERVER_ERROR, "Login failed")),
    }
}

/// Answers a login as of the current second.
pub fn login(payload: &LoginRequest, config: &Config, found: Result<Option<User>, MongoError>) -> (r:
    Result<AuthResponse, Reply>)
    ensures
        exists|now: int|
            0 <= now <= i64::MAX && #[trigger] logged_in(
                r,
                payload.password@,
                config.jwt_secret@,
                config.jwt_expiration_hours as nat,
                found_view(found),
                now,
            ),
{
    let now = unix_now();
    login_at(payload, config, found, now)
}

/// A registration with a user name that the store does not hold yet, a
/// password that is not empty and a digest at hand succeeds and stores the
/// name; whatever is asked for the same name afterwards, with any password
/// that is not empty, is answered as a conflict and leaves the store as it is.
pub proof fn lemma_signup_succeeds_once(
    store: Map<Seq<char>, UserView>,
    username: Seq<char>,
    password: Seq<char>,
    digest: Seq<char>,
    id: Seq<u8>,
    later_password: Seq<char>,
    later_digest: Option<Seq<char>>,
    later_id: Seq<u8>,
)
    requires
        username.len() > 0,
        password.len() > 0,
        later_password.len() > 0,
        !store.dom().contains(username),
    ensures
        ({
            let first = signup_run(store, username, password, Some(digest), id);
            let second = signup_run(first.0, username, later_password, later_digest, later_id);
            &&& first.1 == reply(CREATED, "User created successfully"@)
            &&& lookup(first.0, username) == Some(
                UserView { id: Some(id), username, password_hash: digest },
            )
            &&& second.1 == reply(CONFLICT, "Username already exists"@)
            &&& second.0 == first.0
        }),
{
}

/// A user whose stored digest the password verifies against, and who has an
/// identifier, is never turned away as unauthorized: the login yields a bearer
/// token for the identifier, or fails as a fault of the service where no token
/// could be issued.
pub proof fn lemma_right_password_is_not_refused(
    user: UserView,
    password: Seq<char>,
    secret: Seq<char>,
    hours: nat,
    now: int,
)
    requires
        bcrypt_verdict(password, user.password_hash) == Some(true),
        user.id is Some,
    ensures
        login_outcome(password, secret, hours, Ok(Some(user)), now) == bearer_or_fault(
            issuance_outcome(hex_text(user.id.unwrap()), secret, hours, now),
        ),
{
}

} // verus!
