//! What the registration and login endpoints answer, and how a request that
//! carries no valid credential is refused.

use crate::db::statement::asked_once;
use crate::db::statement::keyed;
use crate::db::statement::last_rows;
use crate::db::statement::Store;
use crate::middleware::auth::failure_message;
use crate::middleware::auth::header_view;
use crate::middleware::auth::identity_of;
use crate::middleware::auth::Unauthenticated;
use crate::middleware::auth::AuthenticatedUser;
use crate::middleware::auth::AuthenticatedUserView;
use crate::middleware::auth::JWT_SECRET;
use crate::models::user::LoginCredentials;
use crate::models::user::NewUser;
use crate::models::user::User;
use crate::models::user::UserView;
use crate::models::user::SELECT_USER_BY_USERNAME;
use crate::routes::route_option::Rejection;
use crate::routes::route_option::RejectionView;
use crate::routes::route_option::CONFLICT;
use crate::routes::route_option::INTERNAL_SERVER_ERROR;
use crate::routes::route_option::UNAUTHORIZED;
use crate::services::auth_service::is_login;
use crate::services::auth_service::is_registration;
use crate::services::auth_service::AuthError;
use crate::services::auth_service::AuthErrorView;
use crate::services::auth_service::AuthService;
use crate::views::outcome;
use vstd::prelude::*;

verus! {

/// The body that answers a registration.
#[derive(Debug, Clone, PartialEq, Eq)]
pub struct RegisterResponse {
    pub message: String,
    pub user_id: String,
}

/// The mathematical value of a [`RegisterResponse`].
pub struct RegisterResponseView {
    pub message: Seq<char>,
    pub user_id: Seq<char>,
}

impl DeepView for RegisterResponse {
    type V = RegisterResponseView;

    open spec fn deep_view(&self) -> RegisterResponseView {
        RegisterResponseView { message: self.message@, user_id: self.user_id@ }
    }
}

impl View for RegisterResponse {
    type V = RegisterResponseView;

    open spec fn view(&self) -> RegisterResponseView {
        self.deep_view()
    }
}

/// The body that answers a login.
#[derive(Debug, Clone, PartialEq, Eq)]
pub struct LoginResponse {
    pub token: String,
    pub token_type: String,
    pub expires_in: i64,
    pub user_id: String,
    pub username: String,
}

/// The mathematical value of a [`LoginResponse`].
pub struct LoginResponseView {
    pub token: Seq<char>,
    pub token_type: Seq<char>,
    pub expires_in: i64,
    pub user_id: Seq<char>,
    pub username: Seq<char>,
}

impl DeepView for LoginResponse {
    type V = LoginResponseView;

    open spec fn deep_view(&self) -> LoginResponseView {
        LoginResponseView {
            token: self.token@,
            token_type: self.token_type@,
            expires_in: self.expires_in,
            user_id: self.user_id@,
            username: self.username@,
        }
    }
}

impl View for LoginResponse {
    type V = LoginResponseView;

    open spec fn view(&self) -> LoginResponseView {
        self.deep_view()
    }
}

/// The refusal that answers a failure of a registration or a login:
/// `CONFLICT` for a username that is taken, `UNAUTHORIZED` for credentials
/// that do not match, `INTERNAL_SERVER_ERROR` for the rest, with the same
/// words whatever the cause.
pub open spec fn auth_rejection(e: AuthErrorView) -> RejectionView {
    match e {
        AuthErrorView::UsernameTaken => RejectionView {
            status: CONFLICT,
            error: "Username already exists"@,
        },
        AuthErrorView::InvalidCredentials => RejectionView {
            status: UNAUTHORIZED,
            error: "Invalid username or password"@,
        },
        AuthErrorView::DatabaseError(_) => RejectionView {
            status: INTERNAL_SERVER_ERROR,
            error: "Database error"@,
        },
        AuthErrorView::TokenGenerationError(_) => RejectionView {
            status: INTERNAL_SERVER_ERROR,
            error: "Token generation error"@,
        },
    }
}

/// The answer to a registration.
pub open spec fn registration_answer(registered: Result<UserView, AuthErrorView>) -> Result<
    RegisterResponseView,
    RejectionView,
> {
    match registered {
        Ok(user) => Ok(
            RegisterResponseView { message: "User registered successfully"@, user_id: user.id },
        ),
        Err(e) => Err(auth_rejection(e)),
    }
}

/// The answer to a login.
pub open spec fn login_answer(opened: Result<(UserView, Seq<char>, i64), AuthErrorView>) -> Result<
    LoginResponseView,
    RejectionView,
> {
    match opened {
        Ok((user, token, expires_in)) => Ok(
            LoginResponseView {
                token,
                token_type: "Bearer"@,
                expires_in,
                user_id: user.id,
                username: user.username,
            },
        ),
        Err(e) => Err(auth_rejection(e)),
    }
}

/// The refusal that answers a failure of a registration or a login.
pub fn reject(e: &AuthError) -> (r: Rejection)
    ensures
        r@ == auth_rejection(e@),
{
    match e {
        AuthError::UsernameTaken => Rejection::new(CONFLICT, "Username already exists"),
        AuthError::InvalidCredentials => Rejection::new(
            UNAUTHORIZED,
            "Invalid username or password",
        ),
        AuthError::DatabaseError(_) => Rejection::new(INTERNAL_SERVER_ERROR, "Database error"),
        AuthError::TokenGenerationError(_) => Rejection::new(
            INTERNAL_SERVER_ERROR,
            "Token generation error",
        ),
    }
}

/// The refusal of a request that carries no valid credential: always
/// `UNAUTHORIZED`, with words that do not tell why the token was refused.
pub fn unauthenticated(failure: &Unauthenticated) -> (r: Rejection)
    ensures
        r@ == (RejectionView { status: UNAUTHORIZED, error: failure_message(failure@) }),
{
    Rejection { status: UNAUTHORIZED, body: crate::routes::route_option::ErrorResponse {
        error: failure.message(),
    } }
}

/// What a request's credential gives at an instant under a secret: the
/// identity that it proves, or the refusal of the request, which is always
/// `UNAUTHORIZED` and tells no more than [`failure_message`] does.
pub open spec fn identified(header: Option<Seq<char>>, secret: Seq<char>, at: i64) -> Result<
    AuthenticatedUserView,
    RejectionView,
> {
    match identity_of(header, secret, at) {
        Ok(user) => Ok(user),
        Err(failure) => Err(
            RejectionView { status: UNAUTHORIZED, error: failure_message(failure) },
        ),
    }
}

/// True of what identifying a request returns: what its credential gives at
/// some instant, the present, under the secret of this process.
pub open spec fn is_identification(
    header: Option<Seq<char>>,
    res: Result<AuthenticatedUserView, RejectionView>,
) -> bool {
    exists|at: i64| res == #[trigger] identified(header, JWT_SECRET@, at)
}

/// The identity of a request, or its refusal: the credential is read as
/// [`AuthenticatedUser::from_request`] reads it, and a failure becomes the
/// refusal that [`unauthenticated`] makes of it. A request without a
/// credential is refused with the words that ask for one; a credential of
/// another scheme or with a token that does not validate is refused with the
/// words that call the token invalid.
pub fn identify(header: Option<&str>) -> (res: Result<AuthenticatedUser, Rejection>)
    ensures
        is_identification(header_view(header), outcome(res)),
        res matches Err(r) ==> r.status == UNAUTHORIZED,
{
    let read = AuthenticatedUser::from_request(header);
    let ghost at = choose|at: i64|
        outcome(read) == #[trigger] identity_of(header_view(header), JWT_SECRET@, at);
    let res = match read {
        Ok(user) => Ok(user),
        Err(failure) => Err(unauthenticated(&failure)),
    };
    assert(outcome(res) == identified(header_view(header), JWT_SECRET@, at));
    res
}

/// Answers a registration.
pub fn registration_reply(registered: Result<User, AuthError>) -> (res: Result<
    RegisterResponse,
    Rejection,
>)
    ensures
        outcome(res) == registration_answer(outcome(registered)),
{
    match registered {
        Ok(user) => Ok(
            RegisterResponse {
                message: String::from_str("User registered successfully"),
                user_id: user.id,
            },
        ),
        Err(e) => Err(reject(&e)),
    }
}

/// Answers a login.
pub fn login_reply(opened: Result<(User, String, i64), AuthError>) -> (res: Result<
    LoginResponse,
    Rejection,
>)
    ensures
        outcome(res) == login_answer(outcome(opened)),
{
    match opened {
        Ok((user, token, expires_in)) => Ok(
            LoginResponse {
                token,
                token_type: String::from_str("Bearer"),
                expires_in,
                user_id: user.id,
                username: user.username,
            },
        ),
        Err(e) => Err(reject(&e)),
    }
}

/// `POST /register`: answers what the registration gave. A user stored is
/// answered with that user's identifier and the words of success; a username
/// that the store shows as taken is refused with `CONFLICT`, and nothing but
/// the lookup of the username is exchanged with the store; a failure of the
/// store or of the hasher is refused with `INTERNAL_SERVER_ERROR` and the
/// same words whatever the cause.
pub fn register(store: &mut Store, user_data: &NewUser) -> (res: Result<
    RegisterResponse,
    Rejection,
>)
    ensures
        exists|done: Result<UserView, AuthErrorView>| #[trigger]
            is_registration(
                old(store).trail(),
                final(store).trail(),
                user_data.username@,
                user_data.email@,
                user_data.password@,
                done,
            ) && outcome(res) == registration_answer(done),
{
    let registered = AuthService::register(store, user_data);
    let ghost done = outcome(registered);
    let res = registration_reply(registered);
    proof {
        assert(is_registration(
            old(store).trail(),
            store.trail(),
            user_data.username@,
            user_data.email@,
            user_data.password@,
            done,
        ) && outcome(res) == registration_answer(done));
    }
    res
}

/// `POST /login`: answers what the login gave. The lookup of the username is
/// the one exchange with the store. A user admitted is answered with that
/// user's identifier and username, a bearer token issued for that user and
/// its lifetime; credentials that do not match are refused with
/// `UNAUTHORIZED`, and a failure of the store or of the signing with
/// `INTERNAL_SERVER_ERROR`.
pub fn login(store: &mut Store, credentials: &LoginCredentials) -> (res: Result<
    LoginResponse,
    Rejection,
>)
    ensures
        asked_once(
            old(store).trail(),
            final(store).trail(),
            keyed(SELECT_USER_BY_USERNAME@, credentials.username@),
        ),
        exists|done: Result<(UserView, Seq<char>, i64), AuthErrorView>| #[trigger]
            is_login(last_rows(final(store).trail()), credentials.password@, done) && outcome(res)
                == login_answer(done),
{
    let opened = AuthService::login(store, credentials);
    let ghost done = outcome(opened);
    let res = login_reply(opened);
    proof {
        assert(is_login(last_rows(store.trail()), credentials.password@, done) && outcome(res)
            == login_answer(done));
    }
    res
}

} // verus!
