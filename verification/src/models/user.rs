//! Users and their credentials.

use crate::db::datetime::instant_at;
use crate::db::datetime::instant_at_spec;
use crate::db::datetime::now;
use crate::db::datetime::to_sql_spec;
use crate::db::datetime::SqlDateTime;
use crate::db::statement::asked_once;
use crate::db::statement::done;
use crate::db::statement::is_read_failure;
use crate::db::statement::keyed;
use crate::db::statement::last_changed;
use crate::db::statement::last_rows;
use crate::db::statement::plain;
use crate::db::statement::ran_once;
use crate::db::statement::refused_once;
use crate::db::statement::removed;
use crate::db::statement::Rows;
use crate::db::statement::Store;
use crate::db::statement::text;
use crate::db::statement::text_at;
use crate::db::statement::text_at_spec;
use crate::db::statement::SqlValue;
use crate::db::statement::SqlValueView;
use crate::db::statement::Statement;
use crate::db::statement::StatementView;
use crate::db::statement::StoreError;
use crate::db::statement::StoreErrorView;
use crate::random::new_id;
use crate::views::outcome;
use vstd::prelude::*;

verus! {

pub const INSERT_USER: &'static str =
    "INSERT INTO users (id, username, password_hash, email, created_at) VALUES (?1, ?2, ?3, ?4, ?5)";

pub const SELECT_USER_BY_ID: &'static str =
    "SELECT id, username, password_hash, email, created_at FROM users WHERE id = ?1";

pub const SELECT_USER_BY_USERNAME: &'static str =
    "SELECT id, username, password_hash, email, created_at FROM users WHERE username = ?1";

pub const SELECT_USERS: &'static str =
    "SELECT id, username, password_hash, email, created_at FROM users";

pub const UPDATE_USER: &'static str = "UPDATE users SET username = ?1, email = ?2 WHERE id = ?3";

pub const DELETE_USER: &'static str = "DELETE FROM users WHERE id = ?1";

/// A registered identity. The password is held as a one-way hash only.
#[derive(Debug, Clone, PartialEq, Eq)]
pub struct User {
    pub id: String,
    pub username: String,
    pub password_hash: String,
    pub email: String,
    pub created_at: SqlDateTime,
}

/// The mathematical value of a [`User`].
pub struct UserView {
    pub id: Seq<char>,
    pub username: Seq<char>,
    pub password_hash: Seq<char>,
    pub email: Seq<char>,
    pub created_at: SqlDateTime,
}

impl DeepView for User {
    type V = UserView;

    open spec fn deep_view(&self) -> UserView {
        UserView {
            id: self.id@,
            username: self.username@,
            password_hash: self.password_hash@,
            email: self.email@,
            created_at: self.created_at,
        }
    }
}

impl View for User {
    type V = UserView;

    open spec fn view(&self) -> UserView {
        self.deep_view()
    }
}

/// What a registration supplies.
#[derive(Debug, Clone, PartialEq, Eq)]
pub struct NewUser {
    pub username: String,
    pub password: String,
    pub email: String,
}

/// What a login supplies.
#[derive(Debug, Clone, PartialEq, Eq)]
pub struct LoginCredentials {
    pub username: String,
    pub password: String,
}

/// What bcrypt's `verify` returns for a password and a stored hash: whether
/// they match, or none where the hash cannot be read.
pub uninterp spec fn password_check(password: Seq<char>, hash: Seq<char>) -> Option<bool>;

/// bcrypt's `hash` at bcrypt's `DEFAULT_COST`. The salt is drawn at random, so
/// the hash itself is left open; bcrypt's `verify` accepts the password against
/// it, because it hashes again with the salt and cost that the hash records.
#[verifier::external_body]
fn hash_password(password: &str) -> (res: Result<String, String>)
    ensures
        res matches Ok(hash) ==> password_check(password@, hash@) == Some(true),
{
    bcrypt::hash(password, bcrypt::DEFAULT_COST).map_err(|e| e.to_string())
}

/// bcrypt's `verify`; its error is given as that error's text.
#[verifier::external_body]
fn verify_password(password: &str, hash: &str) -> (res: Result<bool, String>)
    ensures
        match res {
            Ok(matches) => password_check(password@, hash@) == Some(matches),
            Err(_) => password_check(password@, hash@).is_none(),
        },
{
    bcrypt::verify(password, hash).map_err(|e| e.to_string())
}

/// The user that a row of five cells holds: identifier, username, password
/// hash, e-mail address, instant of creation.
pub open spec fn user_of_row(row: Seq<SqlValueView>) -> Result<UserView, StoreErrorView> {
    match text_at_spec(row, 0) {
        Err(e) => Err(e),
        Ok(id) => match text_at_spec(row, 1) {
            Err(e) => Err(e),
            Ok(username) => match text_at_spec(row, 2) {
                Err(e) => Err(e),
                Ok(password_hash) => match text_at_spec(row, 3) {
                    Err(e) => Err(e),
                    Ok(email) => match instant_at_spec(row, 4) {
                        Err(e) => Err(e),
                        Ok(created_at) => Ok(
                            UserView { id, username, password_hash, email, created_at },
                        ),
                    },
                },
            },
        },
    }
}

/// The user that the first of some rows holds; no user where there is no row.
pub open spec fn first_user(rows: Seq<Seq<SqlValueView>>) -> Result<
    Option<UserView>,
    StoreErrorView,
> {
    if rows.len() == 0 {
        Ok(None)
    } else {
        match user_of_row(rows[0]) {
            Ok(user) => Ok(Some(user)),
            Err(e) => Err(e),
        }
    }
}

/// The statement that stores a new user: its five fields in the order of the columns.
pub open spec fn user_insertion(user: UserView) -> Result<StatementView, StoreErrorView> {
    match to_sql_spec(user.created_at) {
        Err(e) => Err(e),
        Ok(created_at) => Ok(
            StatementView {
                sql: INSERT_USER@,
                params: seq![
                    SqlValueView::Text(user.id),
                    SqlValueView::Text(user.username),
                    SqlValueView::Text(user.password_hash),
                    SqlValueView::Text(user.email),
                    created_at,
                ],
            },
        ),
    }
}

/// The statement that stores the username and the e-mail address of a user
/// under its identifier.
pub open spec fn user_modification(user: UserView) -> StatementView {
    StatementView {
        sql: UPDATE_USER@,
        params: seq![
            SqlValueView::Text(user.username),
            SqlValueView::Text(user.email),
            SqlValueView::Text(user.id),
        ],
    }
}

/// The users that some rows hold, in their order: the error of the first row
/// that holds none, where there is such a row.
pub open spec fn users_of_rows(rows: Seq<Seq<SqlValueView>>) -> Result<
    Seq<UserView>,
    StoreErrorView,
>
    decreases rows.len(),
{
    if rows.len() == 0 {
        Ok(Seq::empty())
    } else {
        match users_of_rows(rows.drop_last()) {
            Err(e) => Err(e),
            Ok(users) => match user_of_row(rows.last()) {
                Err(e) => Err(e),
                Ok(user) => Ok(users.push(user)),
            },
        }
    }
}

/// Once a prefix of the rows fails, every longer prefix fails with the same error.
proof fn lemma_users_error_stays(rows: Seq<Seq<SqlValueView>>, n: int)
    requires
        0 <= n <= rows.len(),
        users_of_rows(rows.take(n)) is Err,
    ensures
        users_of_rows(rows) == users_of_rows(rows.take(n)),
    decreases rows.len() - n,
{
    if n == rows.len() {
        assert(rows.take(n) =~= rows);
    } else {
        assert(rows.take(n + 1).drop_last() =~= rows.take(n));
        lemma_users_error_stays(rows, n + 1);
    }
}

/// The user that a lookup found, given the rows that the store gave.
pub open spec fn found_user(rows: Rows) -> Result<Option<UserView>, StoreErrorView> {
    match rows {
        Ok(rows) => first_user(rows),
        Err(e) => Err(e),
    }
}

/// The users that a listing found, given the rows that the store gave.
pub open spec fn listed_users(rows: Rows) -> Result<Seq<UserView>, StoreErrorView> {
    match rows {
        Ok(rows) => users_of_rows(rows),
        Err(e) => Err(e),
    }
}

/// What a login attempt yields once the username has been looked up: the
/// user where one was found and the password matches its hash, no user where
/// none was found or the password does not match, an error where the hash
/// cannot be checked.
pub open spec fn login_outcome(found: Option<UserView>, password: Seq<char>) -> Result<
    Option<UserView>,
    (),
> {
    match found {
        None => Ok(None),
        Some(user) => match password_check(password, user.password_hash) {
            Some(true) => Ok(Some(user)),
            Some(false) => Ok(None),
            None => Err(()),
        },
    }
}

impl User {
    /// Reads a user from a row.
    pub fn from_row(row: &Vec<SqlValue>) -> (res: Result<User, StoreError>)
        ensures
            outcome(res) == user_of_row(row.deep_view()),
            res matches Err(e) ==> e is MissingColumn || e is InvalidColumnType,
    {
        let id = text_at(row, 0)?;
        let username = text_at(row, 1)?;
        let password_hash = text_at(row, 2)?;
        let email = text_at(row, 3)?;
        let created_at = instant_at(row, 4)?;
        Ok(User { id, username, password_hash, email, created_at })
    }

    /// Reads the user of the first row, if there is a row.
    pub fn first(rows: &Vec<Vec<SqlValue>>) -> (res: Result<Option<User>, StoreError>)
        ensures
            outcome(res) == first_user(rows.deep_view()),
    {
        if rows.len() == 0 {
            Ok(None)
        } else {
            match User::from_row(&rows[0]) {
                Ok(user) => Ok(Some(user)),
                Err(e) => Err(e),
            }
        }
    }

    /// Reads the users of all rows, in their order.
    pub fn all(rows: &Vec<Vec<SqlValue>>) -> (res: Result<Vec<User>, StoreError>)
        ensures
            outcome(res) == users_of_rows(rows.deep_view()),
            res matches Err(e) ==> e is MissingColumn || e is InvalidColumnType,
    {
        let mut users: Vec<User> = Vec::new();
        let mut i: usize = 0;
        assert(rows.deep_view().take(0) =~= Seq::<Seq<SqlValueView>>::empty());
        assert(users.deep_view() =~= Seq::<UserView>::empty());
        while i < rows.len()
            invariant
                i <= rows.len(),
                users_of_rows(rows.deep_view().take(i as int)) == Ok::<
                    Seq<UserView>,
                    StoreErrorView,
                >(users.deep_view()),
            decreases rows.len() - i,
        {
            let ghost before = rows.deep_view().take(i as int);
            let ghost after = rows.deep_view().take(i + 1);
            let ghost all = rows.deep_view();
            assert(after.drop_last() =~= before);
            assert(after.last() == rows[i as int].deep_view());
            match User::from_row(&rows[i]) {
                Ok(user) => {
                    let ghost earlier = users.deep_view();
                    let ghost added = user.deep_view();
                    users.push(user);
                    assert(users.deep_view() =~= earlier.push(added));
                },
                Err(e) => {
                    proof {
                        lemma_users_error_stays(all, i + 1);
                    }
                    return Err(e);
                },
            }
            i = i + 1;
        }
        assert(rows.deep_view().take(rows.len() as int) =~= rows.deep_view());
        Ok(users)
    }

    /// The statement that stores this user as a new record.
    pub fn insertion(&self) -> (res: Result<Statement, StoreError>)
        ensures
            outcome(res) == user_insertion(self@),
    {
        let created_at = self.created_at.to_sql()?;
        let ghost cells = seq![
            SqlValueView::Text(self.id@),
            SqlValueView::Text(self.username@),
            SqlValueView::Text(self.password_hash@),
            SqlValueView::Text(self.email@),
            created_at@,
        ];
        let mut params: Vec<SqlValue> = Vec::new();
        params.push(text(self.id.as_str()));
        params.push(text(self.username.as_str()));
        params.push(text(self.password_hash.as_str()));
        params.push(text(self.email.as_str()));
        params.push(created_at);
        assert(params.deep_view() =~= cells);
        Ok(Statement { sql: INSERT_USER, params })
    }

    /// The statement that stores the username and the e-mail address of this
    /// user under its identifier.
    pub fn modification(&self) -> (statement: Statement)
        ensures
            statement@ == user_modification(self@),
    {
        let mut params: Vec<SqlValue> = Vec::new();
        params.push(text(self.username.as_str()));
        params.push(text(self.email.as_str()));
        params.push(text(self.id.as_str()));
        assert(params.deep_view() =~= user_modification(self@).params);
        Statement { sql: UPDATE_USER, params }
    }

    /// Registers a user: draws an identifier, hashes the password and stores
    /// the record with the statement of [`User::insertion`], which is the one
    /// exchange with the store. The user returned carries the given username
    /// and e-mail address and a hash that the password matches. Where the
    /// hasher fails the store is not asked.
    pub fn create(store: &mut Store, new_user: &NewUser) -> (res: Result<User, StoreError>)
        ensures
            res matches Ok(user) ==> {
                &&& user.username@ == new_user.username@
                &&& user.email@ == new_user.email@
                &&& password_check(new_user.password@, user.password_hash@) == Some(true)
                &&& user_insertion(user@) is Ok
                &&& ran_once(
                    old(store).trail(),
                    final(store).trail(),
                    user_insertion(user@)->Ok_0,
                )
                &&& last_changed(final(store).trail()) is Ok
            },
            res matches Err(e) ==> e is Engine || e is Hash,
            res matches Err(e) ==> (e is Hash ==> final(store).trail() == old(store).trail()),
            res matches Err(e) ==> (e is Engine ==> refused_once(
                old(store).trail(),
                final(store).trail(),
                INSERT_USER@,
                e@,
            )),
    {
        let id = new_id();
        let password_hash = match hash_password(new_user.password.as_str()) {
            Ok(hash) => hash,
            Err(message) => {
                return Err(StoreError::Hash(message));
            },
        };
        let user = User {
            id,
            username: new_user.username.clone(),
            password_hash,
            email: new_user.email.clone(),
            created_at: now(),
        };
        let statement = match user.insertion() {
            Ok(statement) => statement,
            Err(e) => {
                return Err(e);
            },
        };
        match store.run(&statement) {
            Ok(_) => Ok(user),
            Err(e) => Err(e),
        }
    }

    /// Looks a user up by identifier: asks `SELECT_USER_BY_ID` once and reads
    /// the first row.
    pub fn find_by_id(store: &mut Store, id: &str) -> (res: Result<Option<User>, StoreError>)
        ensures
            asked_once(old(store).trail(), final(store).trail(), keyed(SELECT_USER_BY_ID@, id@)),
            outcome(res) == found_user(last_rows(final(store).trail())),
            res matches Err(e) ==> is_read_failure(e),
    {
        let rows = store.fetch(&Statement::keyed(SELECT_USER_BY_ID, id))?;
        User::first(&rows)
    }

    /// Looks a user up by username: asks `SELECT_USER_BY_USERNAME` once and
    /// reads the first row.
    pub fn find_by_username(store: &mut Store, username: &str) -> (res: Result<
        Option<User>,
        StoreError,
    >)
        ensures
            asked_once(
                old(store).trail(),
                final(store).trail(),
                keyed(SELECT_USER_BY_USERNAME@, username@),
            ),
            outcome(res) == found_user(last_rows(final(store).trail())),
            res matches Err(e) ==> is_read_failure(e),
    {
        let rows = store.fetch(&Statement::keyed(SELECT_USER_BY_USERNAME, username))?;
        User::first(&rows)
    }

    /// Decides a login once the username has been looked up.
    pub fn check_password(found: Option<User>, password: &str) -> (res: Result<
        Option<User>,
        StoreError,
    >)
        ensures
            match login_outcome(found.deep_view(), password@) {
                Ok(user) => res.is_ok() && res.unwrap().deep_view() == user,
                Err(_) => res matches Err(e) && e is Hash,
            },
    {
        match found {
            None => Ok(None),
            Some(user) => match verify_password(password, user.password_hash.as_str()) {
                Ok(true) => Ok(Some(user)),
                Ok(false) => Ok(None),
                Err(message) => Err(StoreError::Hash(message)),
            },
        }
    }

    /// Looks the username up, which is the one exchange with the store, and
    /// checks the password against the stored hash as
    /// [`User::check_password`] does. A user comes back only where the
    /// password matches that user's hash; an unknown username and a wrong
    /// password both give `Ok(None)`.
    pub fn authenticate(store: &mut Store, credentials: &LoginCredentials) -> (res: Result<
        Option<User>,
        StoreError,
    >)
        ensures
            asked_once(
                old(store).trail(),
                final(store).trail(),
                keyed(SELECT_USER_BY_USERNAME@, credentials.username@),
            ),
            match found_user(last_rows(final(store).trail())) {
                Err(e) => outcome(res) == Err::<Option<UserView>, StoreErrorView>(e),
                Ok(found) => match login_outcome(found, credentials.password@) {
                    Ok(user) => outcome(res) == Ok::<Option<UserView>, StoreErrorView>(user),
                    Err(_) => res matches Err(e) && e is Hash,
                },
            },
            res matches Ok(Some(user)) ==> password_check(
                credentials.password@,
                user.password_hash@,
            ) == Some(true),
            res matches Err(e) ==> is_read_failure(e) || e is Hash,
    {
        let found = User::find_by_username(store, credentials.username.as_str())?;
        User::check_password(found, credentials.password.as_str())
    }

    /// All users: asks `SELECT_USERS` once and reads every row.
    pub fn get_all(store: &mut Store) -> (res: Result<Vec<User>, StoreError>)
        ensures
            asked_once(old(store).trail(), final(store).trail(), plain(SELECT_USERS@)),
            outcome(res) == listed_users(last_rows(final(store).trail())),
            res matches Err(e) ==> is_read_failure(e),
    {
        let rows = store.fetch(&Statement::plain(SELECT_USERS))?;
        User::all(&rows)
    }

    /// Stores the username and e-mail address of this user under its
    /// identifier: runs the statement of [`User::modification`] once.
    pub fn update(&self, store: &mut Store) -> (res: Result<(), StoreError>)
        ensures
            ran_once(old(store).trail(), final(store).trail(), user_modification(self@)),
            outcome(res) == done(last_changed(final(store).trail())),
            res matches Err(e) ==> e is Engine,
    {
        store.run(&self.modification())?;
        Ok(())
    }

    /// Deletes the user with this identifier: runs `DELETE_USER` once; true
    /// where a record went.
    pub fn delete(store: &mut Store, id: &str) -> (res: Result<bool, StoreError>)
        ensures
            ran_once(old(store).trail(), final(store).trail(), keyed(DELETE_USER@, id@)),
            outcome(res) == removed(last_changed(final(store).trail())),
            res matches Err(e) ==> e is Engine,
    {
        let changed = store.run(&Statement::keyed(DELETE_USER, id))?;
        Ok(changed > 0)
    }
}

} // verus!
