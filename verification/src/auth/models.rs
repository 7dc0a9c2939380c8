//! The records and bodies of the authentication routes.

use crate::db::oid::{object_id_option_view, ObjectId};
use vstd::prelude::*;

verus! {

/// A stored credential record. User names are unique in the store.
#[derive(Debug)]
pub struct User {
    pub _id: Option<ObjectId>,
    pub username: String,
    pub password_hash: String,
}

/// The mathematical value of [`User`].
pub struct UserView {
    pub id: Option<Seq<u8>>,
    pub username: Seq<char>,
    pub password_hash: Seq<char>,
}

impl View for User {
    type V = UserView;

    open spec fn view(&self) -> UserView {
        UserView {
            id: object_id_option_view(self._id),
            username: self.username@,
            password_hash: self.password_hash@,
        }
    }
}

/// The body of a registration request.
#[derive(Debug)]
pub struct SignupRequest {
    pub username: String,
    pub password: String,
}

/// The body of a login request.
#[derive(Debug)]
pub struct LoginRequest {
    pub username: String,
    pub password: String,
}

/// The body of a successful login.
#[derive(Debug)]
pub struct AuthResponse {
    pub token: String,
    pub token_type: String,
}

/// The mathematical value of [`AuthResponse`].
pub struct AuthResponseView {
    pub token: Seq<char>,
    pub token_type: Seq<char>,
}

impl View for AuthResponse {
    type V = AuthResponseView;

    open spec fn view(&self) -> AuthResponseView {
        AuthResponseView { token: self.token@, token_type: self.token_type@ }
    }
}

/// What a session token carries: the subject and the second at which it lapses.
#[derive(Debug)]
pub struct Claims {
    pub sub: String,
    pub exp: usize,
}

/// The mathematical value of [`Claims`].
pub struct ClaimsView {
    pub sub: Seq<char>,
    pub exp: nat,
}

impl View for Claims {
    type V = ClaimsView;

    open spec fn view(&self) -> ClaimsView {
        ClaimsView { sub: self.sub@, exp: self.exp as nat }
    }
}

/// The identity that the guard resolved for one request.
#[derive(Debug, Clone)]
pub struct UserId(pub String);

impl View for UserId {
    type V = Seq<char>;

    open spec fn view(&self) -> Seq<char> {
        self.0@
    }
}

} // verus!
