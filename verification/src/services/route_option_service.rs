//! Route options as the owner of their plan sees them. Every operation first
//! passes the ownership check of the plan; an operation on one route then
//! checks that the route belongs to that plan.

use crate::db::cascade::abandoned;
use crate::db::cascade::committed;
use crate::db::cascade::pois_of_routes;
use crate::db::cascade::removed_by;
use crate::db::cascade::route_cascade;
use crate::db::cascade::routes_cascade;
use crate::db::cascade::run_atomically;
use crate::db::cascade::Deletion;
use crate::db::cascade::DeletionView;
use crate::db::statement::continues;
use crate::db::statement::keyed;
use crate::db::statement::lemma_continued_stays;
use crate::db::statement::lemma_continues_itself;
use crate::db::statement::lemma_continues_twice;
use crate::db::statement::lemma_one_more_continues;
use crate::db::statement::message_spec;
use crate::db::statement::nth_since;
use crate::db::statement::plain;
use crate::db::statement::Exchange;
use crate::db::statement::Store;
use crate::db::statement::StoreError;
use crate::db::statement::StoreErrorView;
use crate::db::statement::BEGIN;
use crate::db::statement::COMMIT;
use crate::models::point_of_interest::is_generated_pois;
use crate::models::point_of_interest::listed_pois;
use crate::models::point_of_interest::stored_pois;
use crate::models::point_of_interest::PointOfInterest;
use crate::models::point_of_interest::PointOfInterestView;
use crate::models::point_of_interest::SELECT_POIS_BY_ROUTE;
use crate::models::route_option::found_route;
use crate::models::route_option::is_generated_batch;
use crate::models::route_option::listed_routes;
use crate::models::route_option::stored_routes;
use crate::models::route_option::RouteOption;
use crate::models::route_option::RouteOptionView;
use crate::models::route_option::SELECT_ROUTES_BY_PLAN;
use crate::models::route_option::SELECT_ROUTE_BY_ID;
use crate::models::travel_plan::TravelPlan;
use crate::models::travel_plan::TravelPlanView;
use crate::services::travel_plan_service::decision;
use crate::services::travel_plan_service::guarded;
use crate::services::travel_plan_service::route_ids;
use crate::services::travel_plan_service::TravelPlanError;
use crate::services::travel_plan_service::TravelPlanErrorView;
use crate::services::travel_plan_service::TravelPlanService;
use crate::text::str_eq;
use crate::views::outcome;
use vstd::prelude::*;

verus! {

/// The operations on route options.
pub struct RouteOptionService;

/// Why an operation on route options failed.
#[derive(Debug, Clone, PartialEq, Eq)]
pub enum RouteOptionError {
    /// The plan could not be had: see [`TravelPlanError`].
    TravelPlanError(TravelPlanError),
    /// No route has the identifier.
    RouteNotFound,
    /// The route exists and belongs to another plan.
    InvalidRouteOption,
    /// The store failed; the cause is kept for the log.
    DatabaseError(String),
}

/// The mathematical value of a [`RouteOptionError`].
pub enum RouteOptionErrorView {
    TravelPlanError(TravelPlanErrorView),
    RouteNotFound,
    InvalidRouteOption,
    DatabaseError(Seq<char>),
}

impl DeepView for RouteOptionError {
    type V = RouteOptionErrorView;

    open spec fn deep_view(&self) -> RouteOptionErrorView {
        match self {
            RouteOptionError::TravelPlanError(e) => RouteOptionErrorView::TravelPlanError(e@),
            RouteOptionError::RouteNotFound => RouteOptionErrorView::RouteNotFound,
            RouteOptionError::InvalidRouteOption => RouteOptionErrorView::InvalidRouteOption,
            RouteOptionError::DatabaseError(m) => RouteOptionErrorView::DatabaseError(m@),
        }
    }
}

impl View for RouteOptionError {
    type V = RouteOptionErrorView;

    open spec fn view(&self) -> RouteOptionErrorView {
        self.deep_view()
    }
}

impl From<TravelPlanError> for RouteOptionError {
    fn from(error: TravelPlanError) -> (e: RouteOptionError) {
        RouteOptionError::TravelPlanError(error)
    }
}

impl vstd::std_specs::convert::FromSpecImpl<TravelPlanError> for RouteOptionError {
    open spec fn obeys_from_spec() -> bool {
        true
    }

    open spec fn from_spec(error: TravelPlanError) -> RouteOptionError {
        RouteOptionError::TravelPlanError(error)
    }
}

/// A route with its points of interest.
#[derive(Debug, Clone, PartialEq, Eq)]
pub struct RouteOptionWithPois {
    pub route: RouteOption,
    pub points_of_interest: Vec<PointOfInterest>,
}

/// The mathematical value of a [`RouteOptionWithPois`].
pub struct RouteOptionWithPoisView {
    pub route: RouteOptionView,
    pub points_of_interest: Seq<PointOfInterestView>,
}

impl DeepView for RouteOptionWithPois {
    type V = RouteOptionWithPoisView;

    open spec fn deep_view(&self) -> RouteOptionWithPoisView {
        RouteOptionWithPoisView {
            route: self.route@,
            points_of_interest: self.points_of_interest.deep_view(),
        }
    }
}

impl View for RouteOptionWithPois {
    type V = RouteOptionWithPoisView;

    open spec fn view(&self) -> RouteOptionWithPoisView {
        self.deep_view()
    }
}

/// How many points of interest each route of a batch of `count` routes gets: between two and five.
pub open spec fn poi_count_spec(count: nat) -> nat {
    2 + count % 4
}

/// The check of a route against the plan it was asked for: no route gives
/// `RouteNotFound`, a route of another plan gives `InvalidRouteOption`, a
/// failed lookup gives the store's error.
pub open spec fn route_access(
    found: Result<Option<RouteOptionView>, StoreErrorView>,
    plan_id: Seq<char>,
) -> Result<RouteOptionView, RouteOptionErrorView> {
    match found {
        Err(e) => Err(RouteOptionErrorView::DatabaseError(message_spec(e))),
        Ok(None) => Err(RouteOptionErrorView::RouteNotFound),
        Ok(Some(route)) => if route.travel_plan_id == plan_id {
            Ok(route)
        } else {
            Err(RouteOptionErrorView::InvalidRouteOption)
        },
    }
}

/// A route joined with what a lookup of its points of interest found.
pub open spec fn joined(
    route: RouteOptionView,
    pois: Result<Seq<PointOfInterestView>, StoreErrorView>,
) -> Result<RouteOptionWithPoisView, RouteOptionErrorView> {
    match pois {
        Ok(found) => Ok(RouteOptionWithPoisView { route, points_of_interest: found }),
        Err(e) => Err(RouteOptionErrorView::DatabaseError(message_spec(e))),
    }
}

/// What deleting one route gives once its cascade has run: whether the last
/// deletion, that of the route itself, removed a record.
pub open spec fn route_deleted(ran: Result<Seq<usize>, StoreErrorView>) -> Result<
    bool,
    RouteOptionErrorView,
> {
    match ran {
        Err(e) => Err(RouteOptionErrorView::DatabaseError(message_spec(e))),
        Ok(counts) => Ok(counts.len() > 0 && counts.last() > 0),
    }
}

/// What deleting the routes of a plan gives once its cascade has run: how
/// many records the last deletion, that of the routes, removed.
pub open spec fn routes_deleted(ran: Result<Seq<usize>, StoreErrorView>) -> Result<
    usize,
    RouteOptionErrorView,
> {
    match ran {
        Err(e) => Err(RouteOptionErrorView::DatabaseError(message_spec(e))),
        Ok(counts) => Ok(
            if counts.len() > 0 {
                counts.last()
            } else {
                0
            },
        ),
    }
}

/// True of what a generation of `count` routes for a plan returns: exactly
/// `count` routes of that plan, made as the generator makes a batch between
/// two places; and with each route between two and five points of interest,
/// `2 + count % 4` of them, each naming that route and made as the generator
/// makes them along it.
pub open spec fn is_generation(
    generated: Seq<RouteOptionWithPoisView>,
    plan_id: Seq<char>,
    count: nat,
    start: Seq<char>,
    end: Seq<char>,
) -> bool {
    &&& generated.len() == count
    &&& is_generated_batch(routes_of(generated), plan_id, start, end)
    &&& forall|i: int|
        0 <= i < generated.len() ==> {
            let entry = #[trigger] generated[i];
            &&& entry.route.travel_plan_id == plan_id
            &&& entry.points_of_interest.len() == poi_count_spec(count)
            &&& 2 <= entry.points_of_interest.len() <= 5
            &&& forall|j: int|
                0 <= j < entry.points_of_interest.len() ==> (
                #[trigger] entry.points_of_interest[j]).route_option_id == entry.route.id
            &&& is_generated_pois(
                entry.points_of_interest,
                entry.route.id,
                entry.route.start_coordinates,
                entry.route.end_coordinates,
                entry.route.waypoints,
            )
        }
}

/// The refusal of the ownership check, as an error of this service.
pub open spec fn refusal(e: TravelPlanErrorView) -> RouteOptionErrorView {
    RouteOptionErrorView::TravelPlanError(e)
}

/// The routes of a batch, without their points of interest.
pub open spec fn routes_of(generated: Seq<RouteOptionWithPoisView>) -> Seq<RouteOptionView> {
    Seq::new(generated.len(), |i: int| generated[i].route)
}

/// True where the exchange listed the points of interest of this route,
/// and these are what it found.
pub open spec fn listed_pois_of(
    exchange: Exchange,
    route_id: Seq<char>,
    pois: Result<Seq<PointOfInterestView>, StoreErrorView>,
) -> bool {
    &&& exchange is Fetched
    &&& exchange->asked == keyed(SELECT_POIS_BY_ROUTE@, route_id)
    &&& listed_pois(exchange->rows) == pois
}

/// True of what listing the routes of a plan returns, given the exchanges
/// that it made: a refusal of the ownership check is returned, after the one
/// exchange. For a plan that passed, the second exchange lists its routes: a
/// failure of the listing is returned, and nothing more is exchanged; else
/// one more exchange for each route, in their order, lists the points of
/// interest that the route is returned with, and the first listing that
/// fails ends the work with its failure.
pub open spec fn is_route_listing(
    before: Seq<Exchange>,
    after: Seq<Exchange>,
    plan_id: Seq<char>,
    caller: Seq<char>,
    res: Result<Seq<RouteOptionWithPoisView>, RouteOptionErrorView>,
) -> bool {
    &&& guarded(before, after, plan_id, caller)
    &&& match decision(before, after, caller) {
        Err(e) => res == Err::<Seq<RouteOptionWithPoisView>, RouteOptionErrorView>(refusal(e)),
        Ok(_) => {
            &&& after.len() >= before.len() + 2
            &&& nth_since(before, after, 1) is Fetched
            &&& nth_since(before, after, 1)->asked == keyed(SELECT_ROUTES_BY_PLAN@, plan_id)
            &&& match listed_routes(nth_since(before, after, 1)->rows) {
                Err(e) => after.len() == before.len() + 2 && res == Err::<
                    Seq<RouteOptionWithPoisView>,
                    RouteOptionErrorView,
                >(RouteOptionErrorView::DatabaseError(message_spec(e))),
                Ok(routes) => match res {
                    Ok(listed) => {
                        &&& routes_of(listed) == routes
                        &&& after.len() == before.len() + 2 + listed.len()
                        &&& forall|i: int|
                            0 <= i < listed.len() ==> listed_pois_of(
                                #[trigger] nth_since(before, after, 2 + i),
                                listed[i].route.id,
                                Ok(listed[i].points_of_interest),
                            )
                    },
                    Err(RouteOptionErrorView::DatabaseError(m)) => exists|
                        k: int,
                        e: StoreErrorView,
                    |
                        {
                            &&& 0 <= k < routes.len()
                            &&& after.len() == before.len() + 3 + k
                            &&& forall|i: int|
                                0 <= i < k ==> {
                                    let exchange = #[trigger] nth_since(before, after, 2 + i);
                                    &&& exchange is Fetched
                                    &&& exchange->asked == keyed(
                                        SELECT_POIS_BY_ROUTE@,
                                        routes[i].id,
                                    )
                                    &&& listed_pois(exchange->rows) is Ok
                                }
                            &&& #[trigger] listed_pois_of(after.last(), routes[k].id, Err(e))
                            &&& m == message_spec(e)
                        },
                    Err(_) => false,
                },
            }
        },
    }
}

/// True of what getting one route returns, given the exchanges that it made:
/// the refusal of the ownership check; or, after the lookup of the route, the
/// refusal of the check of the route against the plan; or the route joined
/// with what a third exchange, the lookup of its points of interest, gave.
pub open spec fn is_route_view(
    before: Seq<Exchange>,
    after: Seq<Exchange>,
    plan_id: Seq<char>,
    route_id: Seq<char>,
    caller: Seq<char>,
    res: Result<RouteOptionWithPoisView, RouteOptionErrorView>,
) -> bool {
    &&& guarded(before, after, plan_id, caller)
    &&& match decision(before, after, caller) {
        Err(e) => res == Err::<RouteOptionWithPoisView, RouteOptionErrorView>(refusal(e)),
        Ok(_) => {
            &&& after.len() >= before.len() + 2
            &&& nth_since(before, after, 1) is Fetched
            &&& nth_since(before, after, 1)->asked == keyed(SELECT_ROUTE_BY_ID@, route_id)
            &&& match route_access(found_route(nth_since(before, after, 1)->rows), plan_id) {
                Err(e) => after.len() == before.len() + 2 && res == Err::<
                    RouteOptionWithPoisView,
                    RouteOptionErrorView,
                >(e),
                Ok(route) => {
                    &&& after.len() == before.len() + 3
                    &&& nth_since(before, after, 2) is Fetched
                    &&& nth_since(before, after, 2)->asked == keyed(
                        SELECT_POIS_BY_ROUTE@,
                        route.id,
                    )
                    &&& res == joined(route, listed_pois(nth_since(before, after, 2)->rows))
                },
            }
        },
    }
}

/// True of what deleting one route returns, given the exchanges that it
/// made: a refusal of the ownership check is returned, after the one
/// exchange; a refusal of the check of the route that the second exchange
/// looked up is returned, after the two. Else what follows is the cascade of
/// the route: `Ok` where it was committed, saying whether its last deletion,
/// that of the route, removed a record; the refusal of the store where it was
/// abandoned, and then rolled back.
pub open spec fn is_route_deletion(
    before: Seq<Exchange>,
    after: Seq<Exchange>,
    plan_id: Seq<char>,
    route_id: Seq<char>,
    caller: Seq<char>,
    res: Result<bool, RouteOptionErrorView>,
) -> bool {
    &&& guarded(before, after, plan_id, caller)
    &&& match decision(before, after, caller) {
        Err(e) => res == Err::<bool, RouteOptionErrorView>(refusal(e)),
        Ok(_) => {
            &&& after.len() >= before.len() + 2
            &&& nth_since(before, after, 1) is Fetched
            &&& nth_since(before, after, 1)->asked == keyed(SELECT_ROUTE_BY_ID@, route_id)
            &&& match route_access(found_route(nth_since(before, after, 1)->rows), plan_id) {
                Err(e) => after.len() == before.len() + 2 && res == Err::<
                    bool,
                    RouteOptionErrorView,
                >(e),
                Ok(_) => match res {
                    Ok(deleted) => committed(
                        after.take(before.len() as int + 2),
                        after,
                        route_cascade(route_id),
                    ) && deleted == (removed_by(after.take(before.len() as int + 2), after, 1)
                        > 0),
                    Err(RouteOptionErrorView::DatabaseError(m)) => exists|e: StoreErrorView| #[trigger]
                        abandoned(
                            after.take(before.len() as int + 2),
                            after,
                            route_cascade(route_id),
                            e,
                        ) && m == message_spec(e),
                    Err(_) => false,
                },
            }
        },
    }
}

/// True of what deleting the routes of a plan returns, given the exchanges
/// that it made: a refusal of the ownership check is returned, after the one
/// exchange. For a plan that passed, the second exchange lists its routes: a
/// failure of the listing is returned, and nothing more is exchanged; where
/// there are no routes nothing more is exchanged either and `Ok` holds zero;
/// else what follows is the cascade over the listed routes: `Ok` where it was
/// committed, holding how many records its last deletion, that of the routes,
/// removed; the refusal of the store where it was abandoned, and then rolled back.
pub open spec fn is_routes_deletion(
    before: Seq<Exchange>,
    after: Seq<Exchange>,
    plan_id: Seq<char>,
    caller: Seq<char>,
    res: Result<usize, RouteOptionErrorView>,
) -> bool {
    &&& guarded(before, after, plan_id, caller)
    &&& match decision(before, after, caller) {
        Err(e) => res == Err::<usize, RouteOptionErrorView>(refusal(e)),
        Ok(_) => {
            &&& after.len() >= before.len() + 2
            &&& nth_since(before, after, 1) is Fetched
            &&& nth_since(before, after, 1)->asked == keyed(SELECT_ROUTES_BY_PLAN@, plan_id)
            &&& match listed_routes(nth_since(before, after, 1)->rows) {
                Err(e) => after.len() == before.len() + 2 && res == Err::<
                    usize,
                    RouteOptionErrorView,
                >(RouteOptionErrorView::DatabaseError(message_spec(e))),
                Ok(routes) => if routes.len() == 0 {
                    after.len() == before.len() + 2 && res == Ok::<usize, RouteOptionErrorView>(
                        0,
                    )
                } else {
                    match res {
                        Ok(count) => committed(
                            after.take(before.len() as int + 2),
                            after,
                            routes_cascade(plan_id, route_ids(routes)),
                        ) && count == removed_by(
                            after.take(before.len() as int + 2),
                            after,
                            route_ids(routes).len() as int,
                        ),
                        Err(RouteOptionErrorView::DatabaseError(m)) => exists|e: StoreErrorView| #[trigger]
                            abandoned(
                                after.take(before.len() as int + 2),
                                after,
                                routes_cascade(plan_id, route_ids(routes)),
                                e,
                            ) && m == message_spec(e),
                        Err(_) => false,
                    }
                },
            }
        },
    }
}

/// True where the exchanges after `before` stored the points of interest of
/// these routes, route by route in their order, and did nothing else.
pub open spec fn stored_all_pois(
    before: Seq<Exchange>,
    after: Seq<Exchange>,
    generated: Seq<RouteOptionWithPoisView>,
) -> bool
    decreases generated.len(),
{
    if generated.len() == 0 {
        after == before
    } else {
        let last = generated.last().points_of_interest;
        &&& after.len() >= last.len()
        &&& stored_all_pois(before, after.take(after.len() - last.len()), generated.drop_last())
        &&& stored_pois(after.take(after.len() - last.len()), after, last)
    }
}

/// True of the exchanges of a successful generation: after the lookup of the
/// plan a transaction was begun; the routes were stored, one insertion each;
/// then the points of interest of each route, one insertion each; and the
/// transaction was committed. Nothing else was exchanged.
pub open spec fn is_stored_generation(
    before: Seq<Exchange>,
    after: Seq<Exchange>,
    generated: Seq<RouteOptionWithPoisView>,
) -> bool {
    &&& after.len() >= before.len() + 3 + generated.len()
    &&& nth_since(before, after, 1) is Ran
    &&& nth_since(before, after, 1)->ran == plain(BEGIN@)
    &&& nth_since(before, after, 1)->changed is Ok
    &&& stored_routes(
        after.take(before.len() as int + 2),
        after.take(before.len() as int + 2 + generated.len()),
        routes_of(generated),
    )
    &&& stored_all_pois(
        after.take(before.len() as int + 2 + generated.len()),
        after.drop_last(),
        generated,
    )
    &&& after.last() is Ran
    &&& after.last()->ran == plain(COMMIT@)
    &&& after.last()->changed is Ok
}

/// True of the exchanges of a generation that failed with these words after
/// the plan passed the ownership check: either the store refused to begin the
/// transaction, and nothing more was exchanged; or the transaction was begun,
/// a later statement, an insertion or the commit, was refused, nothing after
/// it was attempted, and the transaction was rolled back.
pub open spec fn is_undone_generation(
    before: Seq<Exchange>,
    after: Seq<Exchange>,
    words: Seq<char>,
) -> bool {
    &&& after.len() >= before.len() + 2
    &&& nth_since(before, after, 1) is Ran
    &&& nth_since(before, after, 1)->ran == plain(BEGIN@)
    &&& match nth_since(before, after, 1)->changed {
        Err(e) => after.len() == before.len() + 2 && words == message_spec(e),
        Ok(_) => {
            &&& after.len() >= before.len() + 4
            &&& after.last() is Ran
            &&& after.last()->ran == plain(crate::db::statement::ROLLBACK@)
            &&& after[after.len() - 2] is Ran
            &&& after[after.len() - 2]->changed matches Err(e)
            &&& words == message_spec(e)
        },
    }
}

/// True of what a generation of `count` routes for a plan returns, given the
/// exchanges that it made: a refusal of the ownership check is returned,
/// after the one exchange. For a plan that passed, which gives the two
/// places: `Ok` holds what [`is_generation`] says, stored as
/// [`is_stored_generation`] says; a failure holds the words of the refusal
/// of the store, after which the batch was undone as
/// [`is_undone_generation`] says.
pub open spec fn is_generation_exchange(
    before: Seq<Exchange>,
    after: Seq<Exchange>,
    plan_id: Seq<char>,
    caller: Seq<char>,
    count: nat,
    res: Result<Seq<RouteOptionWithPoisView>, RouteOptionErrorView>,
) -> bool {
    &&& guarded(before, after, plan_id, caller)
    &&& match decision(before, after, caller) {
        Err(e) => res == Err::<Seq<RouteOptionWithPoisView>, RouteOptionErrorView>(refusal(e)),
        Ok(plan) => match res {
            Ok(generated) => is_generation(
                generated,
                plan_id,
                count,
                plan.start_location,
                plan.end_location,
            ) && is_stored_generation(before, after, generated),
            Err(RouteOptionErrorView::DatabaseError(words)) => is_undone_generation(
                before,
                after,
                words,
            ),
            Err(_) => false,
        },
    }
}

/// True of what a generation of `count` routes for a plan returns, the plan
/// lying between some two places: see [`is_generation`].
pub open spec fn is_generation_for(
    generated: Seq<RouteOptionWithPoisView>,
    plan_id: Seq<char>,
    count: nat,
) -> bool {
    exists|start: Seq<char>, end: Seq<char>| #[trigger]
        is_generation(generated, plan_id, count, start, end)
}

/// The count contract of a generation: exactly `count` routes come back,
/// each with between two and five points of interest, and each point of
/// interest names one of the routes that came back, namely the route it is listed under.
pub proof fn lemma_generation_counts(
    generated: Seq<RouteOptionWithPoisView>,
    plan_id: Seq<char>,
    count: nat,
)
    requires
        is_generation_for(generated, plan_id, count),
    ensures
        generated.len() == count,
        forall|i: int|
            0 <= i < generated.len() ==> 2 <= (#[trigger] generated[i]).points_of_interest.len()
                <= 5,
        forall|i: int, j: int|
            0 <= i < generated.len() && 0 <= j < generated[i].points_of_interest.len()
                ==> exists|k: int|
                0 <= k < generated.len() && (#[trigger] generated[i].points_of_interest[j]).route_option_id
                    == (#[trigger] generated[k]).route.id,
{
    let (start, end) = choose|start: Seq<char>, end: Seq<char>| #[trigger]
        is_generation(generated, plan_id, count, start, end);
    assert forall|i: int, j: int|
        0 <= i < generated.len() && 0 <= j < generated[i].points_of_interest.len() implies exists|
        k: int,
    |
        0 <= k < generated.len() && (#[trigger] generated[i].points_of_interest[j]).route_option_id
            == (#[trigger] generated[k]).route.id by {
        let entry = generated[i];
        assert(entry.points_of_interest[j].route_option_id == entry.route.id);
    }
}

impl RouteOptionError {
    /// The error of this service for a failure of the store.
    pub fn from_store(error: &StoreError) -> (e: RouteOptionError)
        ensures
            e@ == RouteOptionErrorView::DatabaseError(message_spec(error@)),
    {
        RouteOptionError::DatabaseError(error.message())
    }
}

impl RouteOptionService {
    /// How many points of interest each route of a batch of `count` routes gets.
    pub fn poi_count(count: usize) -> (n: usize)
        ensures
            n == poi_count_spec(count as nat),
            2 <= n <= 5,
    {
        2 + count % 4
    }

    /// The check of a route that was looked up against the plan it was asked for.
    pub fn check_route(found: Result<Option<RouteOption>, StoreError>, plan_id: &str) -> (res:
        Result<RouteOption, RouteOptionError>)
        ensures
            outcome(res) == route_access(outcome(found), plan_id@),
    {
        match found {
            Err(e) => Err(RouteOptionError::from_store(&e)),
            Ok(None) => Err(RouteOptionError::RouteNotFound),
            Ok(Some(route)) => if str_eq(route.travel_plan_id.as_str(), plan_id) {
                Ok(route)
            } else {
                Err(RouteOptionError::InvalidRouteOption)
            },
        }
    }

    /// Joins a route with what a lookup of its points of interest found.
    pub fn join(route: RouteOption, pois: Result<Vec<PointOfInterest>, StoreError>) -> (res: Result<
        RouteOptionWithPois,
        RouteOptionError,
    >)
        ensures
            outcome(res) == joined(route@, outcome(pois)),
    {
        match pois {
            Ok(found) => Ok(RouteOptionWithPois { route, points_of_interest: found }),
            Err(e) => Err(RouteOptionError::from_store(&e)),
        }
    }

    /// Looks the plan up and lets the ownership check decide, as every
    /// operation on the routes of a plan does first; a refusal is an error of
    /// this service that holds the refusal.
    pub fn owned_plan(store: &mut Store, plan_id: &str, user_id: &str) -> (res: Result<
        TravelPlan,
        RouteOptionError,
    >)
        ensures
            guarded(old(store).trail(), final(store).trail(), plan_id@, user_id@),
            final(store).trail().len() == old(store).trail().len() + 1,
            match decision(old(store).trail(), final(store).trail(), user_id@) {
                Ok(plan) => outcome(res) == Ok::<TravelPlanView, RouteOptionErrorView>(plan),
                Err(e) => outcome(res) == Err::<TravelPlanView, RouteOptionErrorView>(refusal(e)),
            },
    {
        match TravelPlanService::owned(store, plan_id, user_id) {
            Ok(plan) => Ok(plan),
            Err(e) => Err(RouteOptionError::TravelPlanError(e)),
        }
    }

    /// The routes of a plan, each with its points of interest, for the owner
    /// of the plan. The plan passes the ownership check first, and a caller
    /// who is refused causes no further exchange with the store; then the
    /// routes are listed, and for each route its points of interest. A
    /// failure of a listing ends the work and is a `DatabaseError`.
    pub fn get_route_options(store: &mut Store, plan_id: &str, user_id: &str) -> (res: Result<
        Vec<RouteOptionWithPois>,
        RouteOptionError,
    >)
        ensures
            is_route_listing(
                old(store).trail(),
                final(store).trail(),
                plan_id@,
                user_id@,
                outcome(res),
            ),
            res matches Err(e) ==> e is TravelPlanError || e is DatabaseError,
    {
        let ghost before = store.trail();
        let _plan = match RouteOptionService::owned_plan(store, plan_id, user_id) {
            Ok(plan) => plan,
            Err(e) => {
                return Err(e);
            },
        };
        let ghost asked = store.trail();
        let routes = match RouteOption::find_by_travel_plan_id(store, plan_id) {
            Ok(routes) => routes,
            Err(e) => {
                proof {
                    let after = store.trail();
                    lemma_one_more_continues(asked, after);
                    lemma_continues_twice(before, asked, after);
                    assert(nth_since(before, after, 0) == nth_since(before, asked, 0));
                    assert(nth_since(before, after, 1) == after.last());
                }
                return Err(RouteOptionError::from_store(&e));
            },
        };
        let ghost listing = store.trail();
        proof {
            lemma_one_more_continues(asked, listing);
            lemma_continues_twice(before, asked, listing);
            lemma_continues_itself(listing);
            lemma_continued_stays(asked, listing, before.len() as int);
            assert(nth_since(before, listing, 1) == listing.last());
        }
        let mut listed: Vec<RouteOptionWithPois> = Vec::new();
        let mut i: usize = 0;
        while i < routes.len()
            invariant
                i <= routes.len(),
                listed.len() == i,
                before == old(store).trail(),
                continues(before, store.trail()),
                continues(listing, store.trail()),
                listing.len() == before.len() + 2,
                store.trail().len() == before.len() + 2 + i,
                guarded(before, listing, plan_id@, user_id@),
                decision(before, listing, user_id@) is Ok,
                nth_since(before, listing, 1) is Fetched,
                nth_since(before, listing, 1)->asked == keyed(SELECT_ROUTES_BY_PLAN@, plan_id@),
                listed_routes(nth_since(before, listing, 1)->rows) == Ok::<
                    Seq<RouteOptionView>,
                    StoreErrorView,
                >(routes.deep_view()),
                forall|j: int| 0 <= j < i ==> (#[trigger] listed.deep_view()[j]).route
                    == routes.deep_view()[j],
                forall|j: int|
                    0 <= j < i ==> listed_pois_of(
                        #[trigger] nth_since(before, store.trail(), 2 + j),
                        routes.deep_view()[j].id,
                        Ok(listed.deep_view()[j].points_of_interest),
                    ),
            decreases routes.len() - i,
        {
            let route = routes[i].copy();
            let ghost so_far = store.trail();
            let ghost earlier = listed.deep_view();
            let pois = PointOfInterest::find_by_route_option_id(store, route.id.as_str());
            proof {
                let after = store.trail();
                lemma_one_more_continues(so_far, after);
                lemma_continues_twice(before, so_far, after);
                lemma_continues_twice(listing, so_far, after);
                lemma_continued_stays(listing, after, before.len() as int);
                lemma_continued_stays(listing, after, before.len() as int + 1);
                assert forall|j: int| 0 <= j < i implies {
                    let exchange = #[trigger] nth_since(before, after, 2 + j);
                    &&& exchange is Fetched
                    &&& exchange->asked == keyed(SELECT_POIS_BY_ROUTE@, routes.deep_view()[j].id)
                    &&& listed_pois(exchange->rows) is Ok
                } by {
                    assert(nth_since(before, after, 2 + j) == nth_since(before, so_far, 2 + j));
                }
            }
            let ghost answer = outcome(pois);
            match RouteOptionService::join(route, pois) {
                Ok(entry) => {
                    let ghost added = entry.deep_view();
                    listed.push(entry);
                    proof {
                        let after = store.trail();
                        assert(listed.deep_view() =~= earlier.push(added));
                        assert forall|j: int| 0 <= j < i + 1 implies listed_pois_of(
                            #[trigger] nth_since(before, after, 2 + j),
                            routes.deep_view()[j].id,
                            Ok(listed.deep_view()[j].points_of_interest),
                        ) by {
                            if j < i {
                                assert(nth_since(before, after, 2 + j) == nth_since(
                                    before,
                                    so_far,
                                    2 + j,
                                ));
                                assert(listed.deep_view()[j] == earlier[j]);
                            } else {
                                assert(nth_since(before, after, 2 + j) == after.last());
                            }
                        }
                    }
                },
                Err(e) => {
                    proof {
                        let after = store.trail();
                        let failure = answer->Err_0;
                        let k = i as int;
                        assert(listed_pois_of(after.last(), routes.deep_view()[k].id, Err(failure)));
                    }
                    return Err(e);
                },
            }
            i = i + 1;
        }
        proof {
            let after = store.trail();
            lemma_continued_stays(listing, after, before.len() as int);
            lemma_continued_stays(listing, after, before.len() as int + 1);
            assert(routes_of(listed.deep_view()) =~= routes.deep_view());
            assert forall|j: int| 0 <= j < listed.len() implies listed_pois_of(
                #[trigger] nth_since(before, after, 2 + j),
                listed.deep_view()[j].route.id,
                Ok(listed.deep_view()[j].points_of_interest),
            ) by {
                assert(listed.deep_view()[j].route == routes.deep_view()[j]);
            }
        }
        Ok(listed)
    }

    /// Generates `count` routes for the plan between the two places, and for
    /// each route its points of interest: first all routes, then the points
    /// of interest route by route, each record by one insertion.
    fn generate(store: &mut Store, plan_id: &str, start: &str, end: &str, count: usize) -> (res:
        Result<Vec<RouteOptionWithPois>, StoreError>)
        ensures
            continues(old(store).trail(), final(store).trail()),
            res matches Ok(generated) ==> {
                &&& is_generation(generated.deep_view(), plan_id@, count as nat, start@, end@)
                &&& final(store).trail().len() >= old(store).trail().len() + count
                &&& stored_routes(
                    old(store).trail(),
                    final(store).trail().take(old(store).trail().len() + count),
                    routes_of(generated.deep_view()),
                )
                &&& stored_all_pois(
                    final(store).trail().take(old(store).trail().len() + count),
                    final(store).trail(),
                    generated.deep_view(),
                )
            },
            res matches Err(e) ==> {
                &&& e is Engine
                &&& final(store).trail().len() > old(store).trail().len()
                &&& final(store).trail().last() is Ran
                &&& final(store).trail().last()->changed == Err::<usize, StoreErrorView>(e@)
            },
    {
        let ghost before = store.trail();
        let routes = match RouteOption::generate_for(store, plan_id, start, end, count) {
            Ok(routes) => routes,
            Err(e) => {
                return Err(e);
            },
        };
        let ghost routed = store.trail();
        let per_route = RouteOptionService::poi_count(count);
        let mut generated: Vec<RouteOptionWithPois> = Vec::new();
        let mut i: usize = 0;
        proof {
            lemma_continues_itself(routed);
            assert(routes_of(generated.deep_view()) =~= routes.deep_view().take(0));
        }
        while i < routes.len()
            invariant
                i <= routes.len(),
                routes.len() == count,
                generated.len() == i,
                per_route == poi_count_spec(count as nat),
                2 <= per_route <= 5,
                before == old(store).trail(),
                continues(before, routed),
                continues(routed, store.trail()),
                routed.len() == before.len() + count,
                stored_routes(before, routed, routes.deep_view()),
                is_generated_batch(routes.deep_view(), plan_id@, start@, end@),
                routes_of(generated.deep_view()) == routes.deep_view().take(i as int),
                stored_all_pois(routed, store.trail(), generated.deep_view()),
                forall|k: int|
                    0 <= k < i ==> {
                        let entry = #[trigger] generated.deep_view()[k];
                        &&& entry.points_of_interest.len() == per_route
                        &&& forall|j: int|
                            0 <= j < entry.points_of_interest.len() ==> (
                            #[trigger] entry.points_of_interest[j]).route_option_id
                                == entry.route.id
                        &&& is_generated_pois(
                            entry.points_of_interest,
                            entry.route.id,
                            entry.route.start_coordinates,
                            entry.route.end_coordinates,
                            entry.route.waypoints,
                        )
                    },
            decreases routes.len() - i,
        {
            let route = routes[i].copy();
            let ghost so_far = store.trail();
            let pois = match PointOfInterest::generate_for(
                store,
                route.id.as_str(),
                route.start_coordinates.as_str(),
                route.end_coordinates.as_str(),
                &route.waypoints,
                per_route,
            ) {
                Ok(pois) => pois,
                Err(e) => {
                    proof {
                        lemma_continues_twice(routed, so_far, store.trail());
                        lemma_continues_twice(before, routed, store.trail());
                    }
                    return Err(e);
                },
            };
            proof {
                let found = pois.deep_view();
                assert forall|j: int| 0 <= j < found.len() implies (#[trigger] found[j]).route_option_id
                    == route@.id by {
                    let fields = crate::models::point_of_interest::poi_fields_of(found[j]);
                    assert(crate::models::point_of_interest::is_generated_poi(
                        fields,
                        route@.id,
                        j as nat,
                        found.len(),
                        route@.start_coordinates,
                        route@.end_coordinates,
                        route@.waypoints,
                    ));
                }
            }
            let ghost earlier = generated.deep_view();
            let entry = RouteOptionWithPois { route, points_of_interest: pois };
            let ghost added = entry.deep_view();
            generated.push(entry);
            proof {
                let after = store.trail();
                let now = generated.deep_view();
                assert(now =~= earlier.push(added));
                assert(now.drop_last() =~= earlier);
                assert(now.last() == added);
                lemma_continues_twice(routed, so_far, after);
                assert(after.take(after.len() - added.points_of_interest.len()) =~= so_far);
                assert(routes_of(now) =~= routes.deep_view().take(i + 1));
            }
            i = i + 1;
        }
        proof {
            let after = store.trail();
            let views = generated.deep_view();
            lemma_continues_twice(before, routed, after);
            assert(routes.deep_view().take(routes.len() as int) =~= routes.deep_view());
            assert(after.take(before.len() + count) =~= routed);
            assert forall|i: int| 0 <= i < views.len() implies (#[trigger] views[i]).route.travel_plan_id
                == plan_id@ by {
                lemma_batch_names_plan(routes.deep_view(), plan_id@, start@, end@, i);
                assert(routes_of(views)[i] == views[i].route);
            }
        }
        Ok(generated)
    }

    /// Generates `count` routes for a plan, each with its points of interest,
    /// for the owner of the plan, and stores them all in one transaction.
    /// The plan passes the ownership check first, and a caller who is
    /// refused causes no further exchange with the store; the plan that
    /// passed gives the two places. `Ok` holds exactly `count` routes of the
    /// plan, each with `2 + count % 4` points of interest, which is between
    /// two and five, each point names its route, and every record returned
    /// was stored by one insertion inside the committed transaction. A
    /// failure of the store undoes the whole batch and is a `DatabaseError`.
    pub fn generate_route_options(store: &mut Store, plan_id: &str, user_id: &str, count: usize) -> (res:
        Result<Vec<RouteOptionWithPois>, RouteOptionError>)
        ensures
            is_generation_exchange(
                old(store).trail(),
                final(store).trail(),
                plan_id@,
                user_id@,
                count as nat,
                outcome(res),
            ),
            res matches Ok(generated) ==> is_generation_for(
                generated.deep_view(),
                plan_id@,
                count as nat,
            ) && is_stored_generation(
                old(store).trail(),
                final(store).trail(),
                generated.deep_view(),
            ),
            res matches Err(e) ==> e is TravelPlanError || e is DatabaseError,
    {
        let ghost before = store.trail();
        let plan = match RouteOptionService::owned_plan(store, plan_id, user_id) {
            Ok(plan) => plan,
            Err(e) => {
                return Err(e);
            },
        };
        let ghost asked = store.trail();
        match store.begin() {
            Ok(_) => {},
            Err(e) => {
                proof {
                    let after = store.trail();
                    lemma_one_more_continues(asked, after);
                    lemma_continues_twice(before, asked, after);
                    assert(nth_since(before, after, 0) == nth_since(before, asked, 0));
                    assert(nth_since(before, after, 1) == after.last());
                }
                return Err(RouteOptionError::from_store(&e));
            },
        }
        let ghost begun = store.trail();
        proof {
            lemma_one_more_continues(asked, begun);
            lemma_continues_twice(before, asked, begun);
        }
        let generated = match RouteOptionService::generate(
            store,
            plan_id,
            plan.start_location.as_str(),
            plan.end_location.as_str(),
            count,
        ) {
            Ok(generated) => generated,
            Err(e) => {
                let ghost failed = store.trail();
                store.rollback();
                proof {
                    let after = store.trail();
                    lemma_one_more_continues(failed, after);
                    lemma_continues_twice(begun, failed, after);
                    lemma_continues_twice(before, begun, after);
                    lemma_continued_stays(begun, after, before.len() as int);
                    lemma_continued_stays(begun, after, before.len() as int + 1);
                    lemma_continued_stays(asked, begun, before.len() as int);
                    assert(nth_since(before, begun, 1) == begun.last());
                    assert(after[after.len() - 2] == failed.last());
                }
                return Err(RouteOptionError::from_store(&e));
            },
        };
        let ghost made = store.trail();
        match store.commit() {
            Ok(_) => {
                proof {
                    let after = store.trail();
                    lemma_one_more_continues(made, after);
                    lemma_continues_twice(begun, made, after);
                    lemma_continues_twice(before, begun, after);
                    assert(nth_since(before, after, 0) == nth_since(before, begun, 0));
                    assert(nth_since(before, begun, 0) == nth_since(before, asked, 0));
                    assert(nth_since(before, after, 1) == nth_since(before, begun, 1));
                    assert(nth_since(before, begun, 1) == begun.last());
                    assert(after.take(before.len() as int + 2) =~= begun);
                    assert(after.drop_last() == made);
                    assert(after.take(before.len() as int + 2 + generated.deep_view().len())
                        =~= made.take(begun.len() + count));
                    assert(is_generation(
                        generated.deep_view(),
                        plan_id@,
                        count as nat,
                        plan.start_location@,
                        plan.end_location@,
                    ));
                }
                Ok(generated)
            },
            Err(e) => {
                let ghost refused = store.trail();
                store.rollback();
                proof {
                    let after = store.trail();
                    lemma_one_more_continues(made, refused);
                    lemma_one_more_continues(refused, after);
                    lemma_continues_twice(begun, made, refused);
                    lemma_continues_twice(begun, refused, after);
                    lemma_continues_twice(before, begun, after);
                    lemma_continued_stays(begun, after, before.len() as int);
                    lemma_continued_stays(begun, after, before.len() as int + 1);
                    lemma_continued_stays(asked, begun, before.len() as int);
                    assert(nth_since(before, begun, 1) == begun.last());
                    assert(after[after.len() - 2] == refused.last());
                }
                Err(RouteOptionError::from_store(&e))
            },
        }
    }

    /// The route with this identifier, with its points of interest, for the
    /// owner of the plan. The plan passes the ownership check first, and a
    /// caller who is refused causes no further exchange with the store; then
    /// the route is looked up and [`RouteOptionService::check_route`]
    /// decides; a route that passes is joined with what a lookup of its
    /// points of interest gives. Whatever the store answers, a route comes
    /// back only where it belongs to the plan asked for.
    pub fn get_route_option_by_id(store: &mut Store, plan_id: &str, route_id: &str, user_id: &str) -> (res:
        Result<RouteOptionWithPois, RouteOptionError>)
        ensures
            is_route_view(
                old(store).trail(),
                final(store).trail(),
                plan_id@,
                route_id@,
                user_id@,
                outcome(res),
            ),
            res matches Ok(entry) ==> entry.route.travel_plan_id@ == plan_id@,
    {
        let ghost before = store.trail();
        let _plan = match RouteOptionService::owned_plan(store, plan_id, user_id) {
            Ok(plan) => plan,
            Err(e) => {
                return Err(e);
            },
        };
        let ghost asked = store.trail();
        let found = RouteOption::find_by_id(store, route_id);
        let ghost looked = store.trail();
        proof {
            lemma_one_more_continues(asked, looked);
            lemma_continues_twice(before, asked, looked);
            assert(nth_since(before, looked, 0) == nth_since(before, asked, 0));
            assert(nth_since(before, looked, 1) == looked.last());
        }
        let route = match RouteOptionService::check_route(found, plan_id) {
            Ok(route) => route,
            Err(e) => {
                return Err(e);
            },
        };
        let pois = PointOfInterest::find_by_route_option_id(store, route.id.as_str());
        proof {
            let after = store.trail();
            lemma_one_more_continues(looked, after);
            lemma_continues_twice(before, looked, after);
            assert(nth_since(before, after, 0) == nth_since(before, looked, 0));
            assert(nth_since(before, after, 1) == nth_since(before, looked, 1));
            assert(nth_since(before, after, 2) == after.last());
        }
        RouteOptionService::join(route, pois)
    }

    /// The cascade that deletes one route.
    pub fn route_deletions(route_id: &str) -> (steps: Vec<Deletion>)
        ensures
            steps.deep_view() == route_cascade(route_id@),
    {
        let mut steps: Vec<Deletion> = Vec::new();
        steps.push(Deletion::PoisOfRoute(String::from_str(route_id)));
        steps.push(Deletion::Route(String::from_str(route_id)));
        assert(steps.deep_view() =~= route_cascade(route_id@));
        steps
    }

    /// The cascade that deletes the routes of a plan with the routes that were found for it.
    pub fn routes_deletions(plan_id: &str, routes: &Vec<RouteOption>) -> (steps: Vec<Deletion>)
        ensures
            steps.deep_view() == routes_cascade(plan_id@, route_ids(routes.deep_view())),
    {
        let mut steps: Vec<Deletion> = Vec::new();
        let mut i: usize = 0;
        let ghost ids = route_ids(routes.deep_view());
        while i < routes.len()
            invariant
                i <= routes.len(),
                ids == route_ids(routes.deep_view()),
                steps.len() == i,
                forall|j: int|
                    0 <= j < i ==> (#[trigger] steps.deep_view()[j]) == DeletionView::PoisOfRoute(
                        ids[j],
                    ),
            decreases routes.len() - i,
        {
            let ghost earlier = steps.deep_view();
            steps.push(Deletion::PoisOfRoute(routes[i].id.clone()));
            assert(steps.deep_view() =~= earlier.push(DeletionView::PoisOfRoute(ids[i as int])));
            i = i + 1;
        }
        let ghost listed = steps.deep_view();
        assert(listed =~= pois_of_routes(ids));
        steps.push(Deletion::RoutesOfPlan(String::from_str(plan_id)));
        assert(steps.deep_view() =~= listed.push(DeletionView::RoutesOfPlan(plan_id@)));
        steps
    }

    /// What deleting one route gives once its cascade has run.
    pub fn route_removed(ran: Result<Vec<usize>, StoreError>) -> (res: Result<
        bool,
        RouteOptionError,
    >)
        ensures
            outcome(res) == route_deleted(
                match ran {
                    Ok(counts) => Ok(counts@),
                    Err(e) => Err(e@),
                },
            ),
    {
        match ran {
            Err(e) => Err(RouteOptionError::from_store(&e)),
            Ok(counts) => Ok(counts.len() > 0 && counts[counts.len() - 1] > 0),
        }
    }

    /// What deleting the routes of a plan gives once its cascade has run.
    pub fn routes_removed(ran: Result<Vec<usize>, StoreError>) -> (res: Result<
        usize,
        RouteOptionError,
    >)
        ensures
            outcome(res) == routes_deleted(
                match ran {
                    Ok(counts) => Ok(counts@),
                    Err(e) => Err(e@),
                },
            ),
    {
        match ran {
            Err(e) => Err(RouteOptionError::from_store(&e)),
            Ok(counts) => if counts.len() > 0 {
                Ok(counts[counts.len() - 1])
            } else {
                Ok(0)
            },
        }
    }

    /// Deletes the route with this identifier, for the owner of the plan,
    /// together with its points of interest. The plan passes the ownership
    /// check, and a caller who is refused causes no further exchange with the
    /// store; the route is looked up and
    /// [`RouteOptionService::check_route`] decides, and a route that is
    /// refused causes none either. Then the cascade of
    /// [`RouteOptionService::route_deletions`] runs in one transaction: the
    /// points of interest first, then the route. `Ok` says that the cascade
    /// was committed, and whether a route went with it. A failure of the
    /// store undoes the cascade and is a `DatabaseError`.
    pub fn delete_route_option(store: &mut Store, plan_id: &str, route_id: &str, user_id: &str) -> (res:
        Result<bool, RouteOptionError>)
        ensures
            is_route_deletion(
                old(store).trail(),
                final(store).trail(),
                plan_id@,
                route_id@,
                user_id@,
                outcome(res),
            ),
    {
        let ghost before = store.trail();
        let _plan = match RouteOptionService::owned_plan(store, plan_id, user_id) {
            Ok(plan) => plan,
            Err(e) => {
                return Err(e);
            },
        };
        let ghost asked = store.trail();
        let found = RouteOption::find_by_id(store, route_id);
        let ghost looked = store.trail();
        proof {
            lemma_one_more_continues(asked, looked);
            lemma_continues_twice(before, asked, looked);
            assert(nth_since(before, looked, 0) == nth_since(before, asked, 0));
            assert(nth_since(before, looked, 1) == looked.last());
        }
        let _route = match RouteOptionService::check_route(found, plan_id) {
            Ok(route) => route,
            Err(e) => {
                return Err(e);
            },
        };
        let steps = RouteOptionService::route_deletions(route_id);
        let ran = run_atomically(store, &steps);
        proof {
            let after = store.trail();
            lemma_continues_twice(before, looked, after);
            assert(nth_since(before, after, 0) == nth_since(before, looked, 0));
            assert(nth_since(before, after, 1) == nth_since(before, looked, 1));
            assert(after.take(before.len() as int + 2) =~= looked);
        }
        let ghost counted: Option<Seq<usize>> = if ran is Ok {
            Some(ran->Ok_0@)
        } else {
            None
        };
        let ghost failed: Option<StoreErrorView> = if ran is Err {
            Some(ran->Err_0@)
        } else {
            None
        };
        let res = RouteOptionService::route_removed(ran);
        proof {
            if counted is Some {
                let counts = counted->Some_0;
                assert(counts.len() == 2);
                assert(counts.last() == counts[1]);
            } else {
                assert(abandoned(looked, store.trail(), route_cascade(route_id@), failed->Some_0));
            }
        }
        res
    }

    /// Deletes all routes of a plan, for the owner of the plan, together with
    /// their points of interest. The plan passes the ownership check, and a
    /// caller who is refused causes no further exchange with the store; then
    /// the routes are listed. Where there are none nothing is deleted and
    /// `Ok` holds zero; else the cascade of
    /// [`RouteOptionService::routes_deletions`] runs in one transaction: the
    /// points of interest of each listed route first, then the routes. `Ok`
    /// says that the cascade was committed, and holds how many routes went.
    /// A failure of the store undoes the cascade and is a `DatabaseError`.
    pub fn delete_all_route_options(store: &mut Store, plan_id: &str, user_id: &str) -> (res: Result<
        usize,
        RouteOptionError,
    >)
        ensures
            is_routes_deletion(
                old(store).trail(),
                final(store).trail(),
                plan_id@,
                user_id@,
                outcome(res),
            ),
            res matches Err(e) ==> e is TravelPlanError || e is DatabaseError,
    {
        let ghost before = store.trail();
        let _plan = match RouteOptionService::owned_plan(store, plan_id, user_id) {
            Ok(plan) => plan,
            Err(e) => {
                return Err(e);
            },
        };
        let ghost asked = store.trail();
        let routes = match RouteOption::find_by_travel_plan_id(store, plan_id) {
            Ok(routes) => routes,
            Err(e) => {
                proof {
                    let after = store.trail();
                    lemma_one_more_continues(asked, after);
                    lemma_continues_twice(before, asked, after);
                    assert(nth_since(before, after, 0) == nth_since(before, asked, 0));
                    assert(nth_since(before, after, 1) == after.last());
                }
                return Err(RouteOptionError::from_store(&e));
            },
        };
        let ghost listed = store.trail();
        proof {
            lemma_one_more_continues(asked, listed);
            lemma_continues_twice(before, asked, listed);
            assert(nth_since(before, listed, 0) == nth_since(before, asked, 0));
            assert(nth_since(before, listed, 1) == listed.last());
        }
        if routes.len() == 0 {
            return Ok(0);
        }
        let steps = RouteOptionService::routes_deletions(plan_id, &routes);
        let ran = run_atomically(store, &steps);
        proof {
            let after = store.trail();
            lemma_continues_twice(before, listed, after);
            assert(nth_since(before, after, 0) == nth_since(before, listed, 0));
            assert(nth_since(before, after, 1) == nth_since(before, listed, 1));
            assert(after.take(before.len() as int + 2) =~= listed);
        }
        let ghost counted: Option<Seq<usize>> = if ran is Ok {
            Some(ran->Ok_0@)
        } else {
            None
        };
        let ghost failed: Option<StoreErrorView> = if ran is Err {
            Some(ran->Err_0@)
        } else {
            None
        };
        let res = RouteOptionService::routes_removed(ran);
        proof {
            let ids = route_ids(routes.deep_view());
            if counted is Some {
                let counts = counted->Some_0;
                assert(counts.len() == ids.len() + 1);
                assert(counts.last() == counts[ids.len() as int]);
            } else {
                assert(abandoned(
                    listed,
                    store.trail(),
                    routes_cascade(plan_id@, ids),
                    failed->Some_0,
                ));
            }
        }
        res
    }
}

/// Every route of a generated batch names the plan of the batch.
proof fn lemma_batch_names_plan(
    routes: Seq<RouteOptionView>,
    plan_id: Seq<char>,
    start: Seq<char>,
    end: Seq<char>,
    i: int,
)
    requires
        is_generated_batch(routes, plan_id, start, end),
        0 <= i < routes.len(),
    ensures
        routes[i].travel_plan_id == plan_id,
{
    let (start_coordinates, end_coordinates) = choose|
        start_coordinates: Seq<char>,
        end_coordinates: Seq<char>,
    |
        #![trigger crate::random::is_coordinate(start_coordinates), crate::random::is_coordinate(end_coordinates)]
        crate::random::is_coordinate(start_coordinates) && crate::random::is_coordinate(
            end_coordinates,
        ) && forall|k: int|
            0 <= k < routes.len() ==> crate::models::route_option::is_generated(
                crate::models::route_option::fields_of(#[trigger] routes[k]),
                plan_id,
                k as nat,
                start,
                end,
                start_coordinates,
                end_coordinates,
            );
    assert(crate::models::route_option::is_generated(
        crate::models::route_option::fields_of(routes[i]),
        plan_id,
        i as nat,
        start,
        end,
        start_coordinates,
        end_coordinates,
    ));
}

} // verus!
