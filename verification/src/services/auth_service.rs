//! Registration and login.

use crate::db::statement::asked_once;
use crate::db::statement::continues;
use crate::db::statement::keyed;
use crate::db::statement::last_rows;
use crate::db::statement::lemma_continued_stays;
use crate::db::statement::lemma_continues_twice;
use crate::db::statement::lemma_one_more_continues;
use crate::db::statement::message_spec;
use crate::db::statement::nth_since;
use crate::db::statement::Exchange;
use crate::db::statement::StatementView;
use crate::db::statement::Store;
use crate::db::statement::StoreError;
use crate::db::statement::StoreErrorView;
use crate::middleware::auth::generate_token;
use crate::middleware::auth::is_issue;
use crate::middleware::auth::is_session_issue;
use crate::middleware::auth::issued_token;
use crate::middleware::auth::JWT_SECRET;
use crate::middleware::auth::token_error_message;
use crate::middleware::auth::AuthToken;
use crate::middleware::auth::AuthTokenView;
use crate::middleware::auth::TokenError;
use crate::middleware::auth::TokenErrorView;
use crate::middleware::auth::TOKEN_LIFETIME;
use crate::models::user::found_user;
use crate::models::user::login_outcome;
use crate::models::user::password_check;
use crate::models::user::user_insertion;
use crate::models::user::SELECT_USER_BY_USERNAME;
use crate::models::user::LoginCredentials;
use crate::models::user::NewUser;
use crate::models::user::User;
use crate::models::user::UserView;
use crate::views::outcome;
use vstd::prelude::*;

verus! {

/// The operations on credentials.
pub struct AuthService;

/// Why a registration or a login failed.
#[derive(Debug, Clone, PartialEq, Eq)]
pub enum AuthError {
    /// The username belongs to a registered user.
    UsernameTaken,
    /// No user has the username, or the password is not that user's.
    InvalidCredentials,
    /// The store failed; the cause is kept for the log.
    DatabaseError(String),
    /// No token could be issued; the cause is kept for the log.
    TokenGenerationError(String),
}

/// The mathematical value of an [`AuthError`].
pub enum AuthErrorView {
    UsernameTaken,
    InvalidCredentials,
    DatabaseError(Seq<char>),
    TokenGenerationError(Seq<char>),
}

impl DeepView for AuthError {
    type V = AuthErrorView;

    open spec fn deep_view(&self) -> AuthErrorView {
        match self {
            AuthError::UsernameTaken => AuthErrorView::UsernameTaken,
            AuthError::InvalidCredentials => AuthErrorView::InvalidCredentials,
            AuthError::DatabaseError(m) => AuthErrorView::DatabaseError(m@),
            AuthError::TokenGenerationError(m) => AuthErrorView::TokenGenerationError(m@),
        }
    }
}

impl View for AuthError {
    type V = AuthErrorView;

    open spec fn view(&self) -> AuthErrorView {
        self.deep_view()
    }
}

/// Whether a username is free, given what a lookup of it found: taken where
/// a user was found, the store's error where the lookup failed.
pub open spec fn availability(found: Result<Option<UserView>, StoreErrorView>) -> Result<
    (),
    AuthErrorView,
> {
    match found {
        Ok(None) => Ok(()),
        Ok(Some(_)) => Err(AuthErrorView::UsernameTaken),
        Err(e) => Err(AuthErrorView::DatabaseError(message_spec(e))),
    }
}

/// What a login gives, given what the check of the credentials gave: the
/// user where they matched, `InvalidCredentials` where they did not, whether
/// for an unknown username or for a wrong password.
pub open spec fn admission(checked: Result<Option<UserView>, StoreErrorView>) -> Result<
    UserView,
    AuthErrorView,
> {
    match checked {
        Ok(Some(user)) => Ok(user),
        Ok(None) => Err(AuthErrorView::InvalidCredentials),
        Err(e) => Err(AuthErrorView::DatabaseError(message_spec(e))),
    }
}

/// The session of an admitted user, given what issuing a token gave: the
/// user, the token and its lifetime in seconds.
pub open spec fn session(user: UserView, issued: Result<AuthTokenView, TokenErrorView>) -> Result<
    (UserView, Seq<char>, i64),
    AuthErrorView,
> {
    match issued {
        Ok(auth) => Ok((user, auth.token, auth.expires_in)),
        Err(e) => Err(AuthErrorView::TokenGenerationError(token_error_message(e))),
    }
}

/// True where the exchanges after `before` begin with the lookup of a username.
pub open spec fn looked_up_username(
    before: Seq<Exchange>,
    after: Seq<Exchange>,
    username: Seq<char>,
) -> bool {
    &&& continues(before, after)
    &&& after.len() > before.len()
    &&& nth_since(before, after, 0) is Fetched
    &&& nth_since(before, after, 0)->asked == keyed(SELECT_USER_BY_USERNAME@, username)
}

/// True of what a registration returns, given the exchanges that it made:
/// the first exchange looks the username up, and where that shows the
/// username as taken, or fails, that is returned and nothing more is
/// exchanged. Else `Ok` holds a user with the given username and e-mail
/// address and a hash that the given password matches, stored by the second
/// and last exchange; a failure comes from the hasher, before the store is
/// asked again, or is the refusal of the insertion by the store.
pub open spec fn is_registration(
    before: Seq<Exchange>,
    after: Seq<Exchange>,
    username: Seq<char>,
    email: Seq<char>,
    password: Seq<char>,
    res: Result<UserView, AuthErrorView>,
) -> bool {
    &&& looked_up_username(before, after, username)
    &&& match availability(found_user(nth_since(before, after, 0)->rows)) {
        Err(e) => after.len() == before.len() + 1 && res == Err::<UserView, AuthErrorView>(e),
        Ok(_) => match res {
            Ok(user) => {
                &&& user.username == username
                &&& user.email == email
                &&& password_check(password, user.password_hash) == Some(true)
                &&& after.len() == before.len() + 2
                &&& after.last() is Ran
                &&& user_insertion(user) == Ok::<
                    StatementView,
                    crate::db::statement::StoreErrorView,
                >(after.last()->ran)
                &&& after.last()->changed is Ok
            },
            Err(AuthErrorView::DatabaseError(words)) => {
                ||| after.len() == before.len() + 1
                ||| {
                    &&& after.len() == before.len() + 2
                    &&& after.last() is Ran
                    &&& after.last()->ran.sql == crate::models::user::INSERT_USER@
                    &&& after.last()->changed matches Err(e)
                    &&& words == message_spec(e)
                }
            },
            Err(_) => false,
        },
    }
}

/// What a login decides before a token is issued, given the rows that the
/// lookup of the username gave: the user whose hash the password matches;
/// `InvalidCredentials` where no user was found or the password does not
/// match; a `DatabaseError` where the lookup failed or the hash cannot be checked.
pub open spec fn is_admission(
    rows: crate::db::statement::Rows,
    password: Seq<char>,
    res: Result<UserView, AuthErrorView>,
) -> bool {
    match found_user(rows) {
        Err(e) => res == Err::<UserView, AuthErrorView>(
            AuthErrorView::DatabaseError(message_spec(e)),
        ),
        Ok(found) => match login_outcome(found, password) {
            Ok(Some(user)) => res == Ok::<UserView, AuthErrorView>(user),
            Ok(None) => res == Err::<UserView, AuthErrorView>(AuthErrorView::InvalidCredentials),
            Err(_) => res matches Err(e) && e is DatabaseError,
        },
    }
}

/// True where the rows admit `user` with the password, and no token can be
/// signed for that user at the instant `at` under the secret of this process.
pub open spec fn is_unsigned_admission(
    rows: crate::db::statement::Rows,
    password: Seq<char>,
    user: UserView,
    at: i64,
) -> bool {
    &&& is_admission(rows, password, Ok(user))
    &&& at + TOKEN_LIFETIME <= i64::MAX
    &&& issued_token(user.id, user.username, JWT_SECRET@, at) is None
}

/// True of what a login returns, given the rows that the lookup of the
/// username gave. `Ok` holds the user that the rows admit with the password,
/// a token issued for that user under the secret of this process, which
/// makes the round trip, and the token's lifetime in seconds. A
/// `TokenGenerationError` comes only for a user that the rows admit, where no
/// token can be signed for that user; every other failure is the one that
/// the admission gives.
pub open spec fn is_login(
    rows: crate::db::statement::Rows,
    password: Seq<char>,
    res: Result<(UserView, Seq<char>, i64), AuthErrorView>,
) -> bool {
    match res {
        Ok((user, token, expires_in)) => {
            &&& is_admission(rows, password, Ok(user))
            &&& expires_in == TOKEN_LIFETIME
            &&& is_session_issue(
                user.id,
                user.username,
                Ok(AuthTokenView { token, token_type: "Bearer"@, expires_in: TOKEN_LIFETIME }),
            )
        },
        Err(AuthErrorView::TokenGenerationError(_)) => exists|user: UserView, at: i64| #[trigger]
            is_unsigned_admission(rows, password, user, at),
        Err(e) => is_admission(rows, password, Err(e)),
    }
}

impl AuthService {
    /// Decides whether a username is free, given what a lookup of it found.
    pub fn check_available(found: Result<Option<User>, StoreError>) -> (res: Result<(), AuthError>)
        ensures
            outcome(res) == availability(outcome(found)),
    {
        match found {
            Ok(None) => Ok(()),
            Ok(Some(_)) => Err(AuthError::UsernameTaken),
            Err(e) => Err(AuthError::DatabaseError(e.message())),
        }
    }

    /// Decides a login, given what the check of the credentials gave.
    pub fn accept(checked: Result<Option<User>, StoreError>) -> (res: Result<User, AuthError>)
        ensures
            outcome(res) == admission(outcome(checked)),
    {
        match checked {
            Ok(Some(user)) => Ok(user),
            Ok(None) => Err(AuthError::InvalidCredentials),
            Err(e) => Err(AuthError::DatabaseError(e.message())),
        }
    }

    /// The session of an admitted user, given what issuing a token gave.
    pub fn open_session(user: User, issued: Result<AuthToken, TokenError>) -> (res: Result<
        (User, String, i64),
        AuthError,
    >)
        ensures
            outcome(res) == session(user@, outcome(issued)),
    {
        match issued {
            Ok(auth) => Ok((user, auth.token, auth.expires_in)),
            Err(e) => Err(AuthError::TokenGenerationError(e.message())),
        }
    }

    /// Registers a user. The username is looked up first: a user found makes
    /// it `UsernameTaken`, and nothing more is exchanged with the store. Else
    /// the user is stored by one insertion; the user returned has the given
    /// username and e-mail address, and the given password matches the hash it
    /// holds. A failure of the store or of the hasher is a `DatabaseError`.
    pub fn register(store: &mut Store, user_data: &NewUser) -> (res: Result<User, AuthError>)
        ensures
            is_registration(
                old(store).trail(),
                final(store).trail(),
                user_data.username@,
                user_data.email@,
                user_data.password@,
                outcome(res),
            ),
            res matches Err(e) ==> e is UsernameTaken || e is DatabaseError,
    {
        let ghost before = store.trail();
        let found = User::find_by_username(store, user_data.username.as_str());
        let ghost asked = store.trail();
        proof {
            lemma_one_more_continues(before, asked);
        }
        match AuthService::check_available(found) {
            Ok(_) => {},
            Err(e) => {
                return Err(e);
            },
        }
        match User::create(store, user_data) {
            Ok(user) => {
                proof {
                    let after = store.trail();
                    lemma_one_more_continues(asked, after);
                    lemma_continues_twice(before, asked, after);
                    lemma_continued_stays(asked, after, before.len() as int);
                }
                Ok(user)
            },
            Err(e) => {
                proof {
                    let after = store.trail();
                    if after != asked {
                        lemma_one_more_continues(asked, after);
                        lemma_continues_twice(before, asked, after);
                        lemma_continued_stays(asked, after, before.len() as int);
                    }
                }
                Err(AuthError::DatabaseError(e.message()))
            },
        }
    }

    /// Logs a user in: looks the username up, which is the one exchange with
    /// the store, checks the password and issues a session token. `Ok` holds
    /// the user that was found, whose hash the given password matches, a
    /// token issued for that user under the secret of this process, and the
    /// token's lifetime in seconds. An unknown username and a wrong password
    /// both give `InvalidCredentials`.
    pub fn login(store: &mut Store, credentials: &LoginCredentials) -> (res: Result<
        (User, String, i64),
        AuthError,
    >)
        ensures
            asked_once(
                old(store).trail(),
                final(store).trail(),
                keyed(SELECT_USER_BY_USERNAME@, credentials.username@),
            ),
            is_login(last_rows(final(store).trail()), credentials.password@, outcome(res)),
            res matches Ok(opened) ==> password_check(
                credentials.password@,
                opened.0.password_hash@,
            ) == Some(true),
    {
        let checked = User::authenticate(store, credentials);
        let user = match AuthService::accept(checked) {
            Ok(user) => user,
            Err(e) => {
                return Err(e);
            },
        };
        let ghost rows = last_rows(store.trail());
        let issued = generate_token(&user);
        proof {
            let at = choose|at: i64| #[trigger]
                is_issue(user.id@, user.username@, JWT_SECRET@, at, outcome(issued));
            if issued is Ok {
                let auth = issued->Ok_0;
                assert(auth@ == AuthTokenView {
                    token: auth.token@,
                    token_type: "Bearer"@,
                    expires_in: TOKEN_LIFETIME,
                });
            } else {
                assert(is_unsigned_admission(rows, credentials.password@, user@, at));
            }
        }
        AuthService::open_session(user, issued)
    }
}

} // verus!
