//! The values that travel between the handlers, the credential table and
//! the embedding program, each with the mathematical view that the
//! contracts speak of.

use vstd::prelude::*;

verus! {

/// One row of the users table.
#[derive(Debug, Clone, PartialEq, Eq)]
pub struct User {
    pub id: i64,
    pub username: String,
    pub password_hash: String,
}

/// A row of the users table as the contracts see it.
pub struct UserView {
    pub id: int,
    pub username: Seq<char>,
    pub password_hash: Seq<char>,
}

impl View for User {
    type V = UserView;

    open spec fn view(&self) -> UserView {
        UserView { id: self.id as int, username: self.username@, password_hash: self.password_hash@ }
    }
}

/// The views of a list of rows, in the same order.
pub open spec fn user_views(users: Seq<User>) -> Seq<UserView> {
    users.map_values(|user: User| user@)
}

/// The view of a row that may be absent.
pub open spec fn found_view(found: Option<User>) -> Option<UserView> {
    match found {
        Some(user) => Some(user@),
        None => None,
    }
}

/// Body of a register request.
#[derive(Debug, Clone, PartialEq, Eq)]
pub struct RegisterRequest {
    pub username: String,
    pub password: String,
}

/// Body of a login request.
#[derive(Debug, Clone, PartialEq, Eq)]
pub struct LoginRequest {
    pub username: String,
    pub password: String,
}

/// What a request hands to the store: the username as it came and the
/// digest of the password in place of the password.
#[derive(Debug, Clone, PartialEq, Eq)]
pub struct Credentials {
    pub username: String,
    pub password_hash: String,
}

/// Credentials as the contracts see them.
pub struct CredentialsView {
    pub username: Seq<char>,
    pub password_hash: Seq<char>,
}

impl View for Credentials {
    type V = CredentialsView;

    open spec fn view(&self) -> CredentialsView {
        CredentialsView { username: self.username@, password_hash: self.password_hash@ }
    }
}

/// Body of the answer to a request that succeeded.
#[derive(Debug, Clone, PartialEq, Eq)]
pub struct AuthResponse {
    pub message: String,
    pub user_id: i64,
}

/// A success answer as the contracts see it.
pub struct AuthResponseView {
    pub message: Seq<char>,
    pub user_id: int,
}

impl View for AuthResponse {
    type V = AuthResponseView;

    open spec fn view(&self) -> AuthResponseView {
        AuthResponseView { message: self.message@, user_id: self.user_id as int }
    }
}

/// Why a request failed.
#[derive(Debug, Clone, Copy, PartialEq, Eq, Structural)]
pub enum ErrorKind {
    /// The credentials match no single user.
    InvalidCredentials,
    /// The store did not complete the operation.
    Persistence,
}

/// Body of the answer to a request that failed. Only the text is sent; the
/// kind decides the status with which it is sent.
#[derive(Debug, Clone, PartialEq, Eq)]
pub struct ErrorResponse {
    pub error: String,
    pub kind: ErrorKind,
}

/// A failure answer as the contracts see it.
pub struct ErrorResponseView {
    pub error: Seq<char>,
    pub kind: ErrorKind,
}

impl View for ErrorResponse {
    type V = ErrorResponseView;

    open spec fn view(&self) -> ErrorResponseView {
        ErrorResponseView { error: self.error@, kind: self.kind }
    }
}

/// A store operation that did not complete, with the detail the store gave.
/// Its view is that detail.
#[derive(Debug, Clone, PartialEq, Eq)]
pub struct PersistenceError {
    pub detail: String,
}

impl View for PersistenceError {
    type V = Seq<char>;

    open spec fn view(&self) -> Seq<char> {
        self.detail@
    }
}

/// A start-up that did not complete, with the message that reports it. Its
/// view is that message.
#[derive(Debug, Clone, PartialEq, Eq)]
pub struct InitializationError {
    pub message: String,
}

impl View for InitializationError {
    type V = Seq<char>;

    open spec fn view(&self) -> Seq<char> {
        self.message@
    }
}

/// What a handler answers, as the contracts see it.
pub type Answer = Result<AuthResponseView, ErrorResponseView>;

/// The view of what a handler answers.
pub open spec fn reply_view(reply: Result<AuthResponse, ErrorResponse>) -> Answer {
    match reply {
        Ok(body) => Ok(body@),
        Err(body) => Err(body@),
    }
}

/// Copies a row.
pub fn copy_user(user: &User) -> (copy: User)
    ensures
        copy@ == user@,
{
    User {
        id: user.id,
        username: user.username.clone(),
        password_hash: user.password_hash.clone(),
    }
}

} // verus!
