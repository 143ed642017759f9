//! The four tables of the store.

use crate::db::statement::continues;
use crate::db::statement::plain;
use crate::db::statement::Exchange;
use crate::db::statement::Statement;
use crate::db::statement::Store;
use crate::db::statement::StoreError;
use crate::db::statement::StoreErrorView;
use crate::views::outcome;
use vstd::prelude::*;

verus! {

pub const CREATE_USERS: &'static str =
    "CREATE TABLE IF NOT EXISTS users (
        id TEXT PRIMARY KEY,
        username TEXT UNIQUE NOT NULL,
        password_hash TEXT NOT NULL,
        email TEXT UNIQUE NOT NULL,
        created_at TIMESTAMP NOT NULL DEFAULT CURRENT_TIMESTAMP
    )";

pub const CREATE_TRAVEL_PLANS: &'static str =
    "CREATE TABLE IF NOT EXISTS travel_plans (
        id TEXT PRIMARY KEY,
        user_id TEXT NOT NULL,
        name TEXT NOT NULL,
        description TEXT,
        start_location TEXT NOT NULL,
        end_location TEXT NOT NULL,
        start_date TIMESTAMP,
        end_date TIMESTAMP,
        created_at TIMESTAMP NOT NULL DEFAULT CURRENT_TIMESTAMP,
        updated_at TIMESTAMP NOT NULL DEFAULT CURRENT_TIMESTAMP,
        FOREIGN KEY (user_id) REFERENCES users (id)
    )";

pub const CREATE_ROUTE_OPTIONS: &'static str =
    "CREATE TABLE IF NOT EXISTS route_options (
        id TEXT PRIMARY KEY,
        travel_plan_id TEXT NOT NULL,
        name TEXT NOT NULL,
        description TEXT,
        distance INTEGER,
        duration INTEGER,
        start_coordinates TEXT NOT NULL,
        end_coordinates TEXT NOT NULL,
        waypoints TEXT,
        created_at TIMESTAMP NOT NULL DEFAULT CURRENT_TIMESTAMP,
        FOREIGN KEY (travel_plan_id) REFERENCES travel_plans (id)
    )";

pub const CREATE_POINTS_OF_INTEREST: &'static str =
    "CREATE TABLE IF NOT EXISTS points_of_interest (
        id TEXT PRIMARY KEY,
        route_option_id TEXT NOT NULL,
        name TEXT NOT NULL,
        description TEXT,
        category TEXT,
        coordinates TEXT NOT NULL,
        created_at TIMESTAMP NOT NULL DEFAULT CURRENT_TIMESTAMP,
        FOREIGN KEY (route_option_id) REFERENCES route_options (id)
    )";

/// The statements that create the tables, each table after the one it refers to.
pub const TABLES: [&'static str; 4] = [
    CREATE_USERS,
    CREATE_TRAVEL_PLANS,
    CREATE_ROUTE_OPTIONS,
    CREATE_POINTS_OF_INTEREST,
];

/// True where the exchanges after `before` ran the first `n` statements of
/// [`TABLES`], in their order, each with success.
pub open spec fn created_tables(before: Seq<Exchange>, after: Seq<Exchange>, n: int) -> bool {
    &&& continues(before, after)
    &&& after.len() == before.len() + n
    &&& forall|i: int|
        0 <= i < n ==> {
            let exchange = #[trigger] after[before.len() + i];
            exchange is Ran && exchange->ran == plain(TABLES[i]@) && exchange->changed is Ok
        }
}

/// True of what creating the tables returns, given the exchanges that it
/// made. `Ok` says that all four statements of [`TABLES`] were run with
/// success. A failure says that the tables before some table were created,
/// that the statement of that table was refused with this error, and that
/// nothing was run after it.
pub open spec fn is_initialization(
    before: Seq<Exchange>,
    after: Seq<Exchange>,
    res: Result<(), StoreErrorView>,
) -> bool {
    match res {
        Ok(_) => created_tables(before, after, 4),
        Err(e) => {
            let n = after.len() - before.len() - 1;
            &&& e is Engine
            &&& 0 <= n < 4
            &&& created_tables(before, after.drop_last(), n)
            &&& after.last() is Ran
            &&& after.last()->ran == plain(TABLES[n]@)
            &&& after.last()->changed == Err::<usize, StoreErrorView>(e)
        },
    }
}

/// Creates the four tables where they do not exist yet: users, travel plans,
/// route options, points of interest, in this order. The first statement that
/// the engine refuses ends the work with the engine's error, and the tables
/// after it are not attempted; `Ok` says that all four were run with success.
pub fn initialize_database(store: &mut Store) -> (res: Result<(), StoreError>)
    ensures
        continues(old(store).trail(), final(store).trail()),
        is_initialization(old(store).trail(), final(store).trail(), outcome(res)),
{
    let mut i: usize = 0;
    assert(store.trail().take(store.trail().len() as int) =~= store.trail());
    while i < 4
        invariant
            i <= 4,
            created_tables(old(store).trail(), store.trail(), i as int),
        decreases 4 - i,
    {
        let ghost so_far = store.trail();
        let statement = Statement::plain(TABLES[i]);
        let ran = store.run(&statement);
        assert(store.trail().take(old(store).trail().len() as int) =~= so_far.take(
            old(store).trail().len() as int,
        ));
        match ran {
            Ok(_) => {},
            Err(e) => {
                assert(store.trail().drop_last() =~= so_far);
                return Err(e);
            },
        }
        i = i + 1;
    }
    Ok(())
}

} // verus!
