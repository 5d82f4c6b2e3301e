//! The extension and its two request handlers.
//!
//! A handler hashes the password, performs one store operation and turns
//! the outcome into the answer. `register` and `login` do all of this over
//! a `CredentialStore`. An embedding program that keeps its users elsewhere
//! hashes with `hash_password`, performs the store operation itself, has
//! `single_match` pick the user among the rows it found and has
//! `register_reply` or `login_reply` turn the outcome into the answer.

use crate::digest::{hash_password, password_hash};
use crate::model::{
    found_view, reply_view, Answer, AuthResponse, AuthResponseView, Credentials, CredentialsView,
    ErrorKind, ErrorResponse, ErrorResponseView, LoginRequest, PersistenceError, RegisterRequest,
    User, UserView,
};
use crate::store::{
    can_insert, identifiers_exhausted, inserted, lookup, next_id, valid_table, CredentialStore,
};
use vstd::prelude::*;

verus! {

/// What a request with this username and password hands to the store.
pub open spec fn credentials_of(username: Seq<char>, password: Seq<char>) -> CredentialsView {
    CredentialsView { username, password_hash: password_hash(password) }
}

/// The answer to a registration that created the user `user_id`.
pub open spec fn registered(user_id: int) -> AuthResponseView {
    AuthResponseView { message: "User registered successfully"@, user_id }
}

/// The answer to a login as the user `user_id`.
pub open spec fn logged_in(user_id: int) -> AuthResponseView {
    AuthResponseView { message: "Login successful"@, user_id }
}

/// The answer to a login whose credentials match no single user. It does
/// not tell whether the username is known.
pub open spec fn invalid_credentials() -> ErrorResponseView {
    ErrorResponseView { error: "Invalid username or password"@, kind: ErrorKind::InvalidCredentials }
}

/// The answer to a registration that the store did not complete.
pub open spec fn register_failure(detail: Seq<char>) -> ErrorResponseView {
    ErrorResponseView { error: "Failed to register user: "@ + detail, kind: ErrorKind::Persistence }
}

/// The answer to a login during which the store failed.
pub open spec fn login_failure(detail: Seq<char>) -> ErrorResponseView {
    ErrorResponseView { error: "Failed to login: "@ + detail, kind: ErrorKind::Persistence }
}

/// The answer to a register request, given what the insert came to.
pub open spec fn register_answer(outcome: Result<int, Seq<char>>) -> Answer {
    match outcome {
        Ok(user_id) => Ok(registered(user_id)),
        Err(detail) => Err(register_failure(detail)),
    }
}

/// The answer to a login request, given what the lookup came to.
pub open spec fn login_answer(outcome: Result<Option<UserView>, Seq<char>>) -> Answer {
    match outcome {
        Ok(Some(user)) => Ok(logged_in(user.id)),
        Ok(None) => Err(invalid_credentials()),
        Err(detail) => Err(login_failure(detail)),
    }
}

/// The HTTP status with which an answer is sent: 200 for a success, 401
/// for credentials that match no single user, 500 for a failure of the
/// store.
pub open spec fn status_of(answer: Answer) -> int {
    match answer {
        Ok(_) => 200,
        Err(body) => match body.kind {
            ErrorKind::InvalidCredentials => 401,
            ErrorKind::Persistence => 500,
        },
    }
}

/// What an insert into the table `rows` comes to: the new identifier, or
/// the detail of the failure.
pub open spec fn insert_outcome(rows: Seq<UserView>) -> Result<int, Seq<char>> {
    if can_insert(rows) {
        Ok(next_id(rows))
    } else {
        Err(identifiers_exhausted())
    }
}

/// The table after a register request with this username and password.
pub open spec fn table_after_register(
    rows: Seq<UserView>,
    username: Seq<char>,
    password: Seq<char>,
) -> Seq<UserView> {
    if can_insert(rows) {
        inserted(rows, username, password_hash(password))
    } else {
        rows
    }
}

/// The answer to a register request over the table `rows`.
pub open spec fn register_on(rows: Seq<UserView>) -> Answer {
    register_answer(insert_outcome(rows))
}

/// The answer to a login request with this username and password over the
/// table `rows`.
pub open spec fn login_on(rows: Seq<UserView>, username: Seq<char>, password: Seq<char>) -> Answer {
    login_answer(Ok(lookup(rows, username, password_hash(password))))
}

/// The view of what a store reports of an insert.
pub open spec fn insert_view(outcome: Result<i64, PersistenceError>) -> Result<int, Seq<char>> {
    match outcome {
        Ok(user_id) => Ok(user_id as int),
        Err(error) => Err(error@),
    }
}

/// The view of what a store reports of a lookup.
pub open spec fn lookup_view(outcome: Result<Option<User>, PersistenceError>) -> Result<
    Option<UserView>,
    Seq<char>,
> {
    match outcome {
        Ok(found) => Ok(found_view(found)),
        Err(error) => Err(error@),
    }
}

/// The request method on which a route is served.
#[derive(Debug, Clone, Copy, PartialEq, Eq, Structural)]
pub enum Method {
    Post,
}

/// A request that the extension serves.
#[derive(Debug, Clone, Copy, PartialEq, Eq, Structural)]
pub enum Endpoint {
    Register,
    Login,
}

/// A method and a path, and the request served there.
#[derive(Debug, Clone, Copy, PartialEq, Eq)]
pub struct Route {
    pub method: Method,
    pub path: &'static str,
    pub endpoint: Endpoint,
}

/// A route as the contracts see it.
pub struct RouteView {
    pub method: Method,
    pub path: Seq<char>,
    pub endpoint: Endpoint,
}

impl View for Route {
    type V = RouteView;

    open spec fn view(&self) -> RouteView {
        RouteView { method: self.method, path: self.path@, endpoint: self.endpoint }
    }
}

/// The views of a list of routes, in the same order.
pub open spec fn route_views(routes: Seq<Route>) -> Seq<RouteView> {
    routes.map_values(|route: Route| route@)
}

/// The routes that the extension adds, in the order in which it adds them.
pub open spec fn own_routes() -> Seq<RouteView> {
    seq![
        RouteView { method: Method::Post, path: "/register"@, endpoint: Endpoint::Register },
        RouteView { method: Method::Post, path: "/login"@, endpoint: Endpoint::Login },
    ]
}

/// The authentication extension: its name, its routes, its two handlers
/// and the decisions of its start-up.
#[derive(Debug, Clone, Copy, PartialEq, Eq)]
pub struct AuthExtensionSQLite;

/// What a register request hands to the store.
pub fn register_credentials(payload: &RegisterRequest) -> (credentials: Credentials)
    ensures
        credentials@ == credentials_of(payload.username@, payload.password@),
{
    Credentials {
        username: payload.username.clone(),
        password_hash: hash_password(payload.password.as_str()),
    }
}

/// What a login request hands to the store.
pub fn login_credentials(payload: &LoginRequest) -> (credentials: Credentials)
    ensures
        credentials@ == credentials_of(payload.username@, payload.password@),
{
    Credentials {
        username: payload.username.clone(),
        password_hash: hash_password(payload.password.as_str()),
    }
}

/// Turns what the store reported of the insert into the answer to a
/// register request.
pub fn register_reply(outcome: Result<i64, PersistenceError>) -> (reply: Result<
    AuthResponse,
    ErrorResponse,
>)
    ensures
        reply_view(reply) == register_answer(insert_view(outcome)),
{
    match outcome {
        Ok(user_id) => Ok(
            AuthResponse { message: "User registered successfully".to_owned(), user_id },
        ),
        Err(failure) => {
            let mut error = "Failed to register user: ".to_owned();
            error.append(failure.detail.as_str());
            Err(ErrorResponse { error, kind: ErrorKind::Persistence })
        },
    }
}

/// Turns what the store reported of the lookup into the answer to a login
/// request. That no user was found is an answer of its own, apart from a
/// failure of the store.
pub fn login_reply(outcome: Result<Option<User>, PersistenceError>) -> (reply: Result<
    AuthResponse,
    ErrorResponse,
>)
    ensures
        reply_view(reply) == login_answer(lookup_view(outcome)),
{
    match outcome {
        Ok(Some(user)) => Ok(
            AuthResponse { message: "Login successful".to_owned(), user_id: user.id },
        ),
        Ok(None) => Err(
            ErrorResponse {
                error: "Invalid username or password".to_owned(),
                kind: ErrorKind::InvalidCredentials,
            },
        ),
        Err(failure) => {
            let mut error = "Failed to login: ".to_owned();
            error.append(failure.detail.as_str());
            Err(ErrorResponse { error, kind: ErrorKind::Persistence })
        },
    }
}

/// The HTTP status with which `reply` is sent.
pub fn status_code(reply: &Result<AuthResponse, ErrorResponse>) -> (status: u16)
    ensures
        status == status_of(reply_view(*reply)),
{
    match reply {
        Ok(_) => 200,
        Err(body) => match body.kind {
            ErrorKind::InvalidCredentials => 401,
            ErrorKind::Persistence => 500,
        },
    }
}

impl AuthExtensionSQLite {
    /// The name under which the extension is registered.
    pub fn name(&self) -> (name: &'static str)
        ensures
            name@ == "AuthExtensionSQLite"@,
    {
        "AuthExtensionSQLite"
    }

    /// Adds the extension's routes behind those of `routes`.
    pub fn extend(&self, routes: Vec<Route>) -> (extended: Vec<Route>)
        ensures
            route_views(extended@) == route_views(routes@) + own_routes(),
    {
        let mut extended = routes;
        extended.push(Route { method: Method::Post, path: "/register", endpoint: Endpoint::Register });
        extended.push(Route { method: Method::Post, path: "/login", endpoint: Endpoint::Login });
        assert(route_views(extended@) =~= route_views(routes@) + own_routes());
        extended
    }

    /// Registers a new user: stores the username with the digest of the
    /// password and answers with the identifier of the new row.
    pub fn register(pool: &mut CredentialStore, payload: &RegisterRequest) -> (reply: Result<
        AuthResponse,
        ErrorResponse,
    >)
        ensures
            valid_table(old(pool)@),
            valid_table(final(pool)@),
            final(pool)@ == table_after_register(old(pool)@, payload.username@, payload.password@),
            reply_view(reply) == register_on(old(pool)@),
    {
        let credentials = register_credentials(payload);
        let outcome = pool.create_user(
            credentials.username.as_str(),
            credentials.password_hash.as_str(),
        );
        register_reply(outcome)
    }

    /// Logs a user in: answers with the identifier of the one row that
    /// carries the username and the digest of the password.
    pub fn login(pool: &CredentialStore, payload: &LoginRequest) -> (reply: Result<
        AuthResponse,
        ErrorResponse,
    >)
        ensures
            reply_view(reply) == login_on(pool@, payload.username@, payload.password@),
    {
        let credentials = login_credentials(payload);
        let found = pool.find_user(
            credentials.username.as_str(),
            credentials.password_hash.as_str(),
        );
        login_reply(Ok(found))
    }
}

} // verus!
