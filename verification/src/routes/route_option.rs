//! What the route-option endpoints answer: the service's outcome turned into
//! a status and a body.

use crate::db::statement::Store;
use crate::middleware::auth::AuthenticatedUser;
use crate::services::route_option_service::is_generation_exchange;
use crate::services::route_option_service::is_generation_for;
use crate::services::route_option_service::is_route_deletion;
use crate::services::route_option_service::is_route_listing;
use crate::services::route_option_service::is_route_view;
use crate::services::route_option_service::is_routes_deletion;
use crate::services::route_option_service::RouteOptionWithPoisView;
use crate::services::route_option_service::RouteOptionError;
use crate::services::route_option_service::RouteOptionErrorView;
use crate::services::route_option_service::RouteOptionService;
use crate::services::route_option_service::RouteOptionWithPois;
use crate::services::travel_plan_service::TravelPlanErrorView;
use crate::text::decimal;
use crate::text::decimal_spec;
use crate::views::outcome;
use vstd::prelude::*;

verus! {

pub const OK: u16 = 200;

pub const CREATED: u16 = 201;

pub const NO_CONTENT: u16 = 204;

pub const BAD_REQUEST: u16 = 400;

pub const UNAUTHORIZED: u16 = 401;

pub const FORBIDDEN: u16 = 403;

pub const NOT_FOUND: u16 = 404;

pub const CONFLICT: u16 = 409;

pub const INTERNAL_SERVER_ERROR: u16 = 500;

/// How many routes are generated where the request names no number.
pub const DEFAULT_COUNT: usize = 3;

/// The body of a refusal: a short reason.
#[derive(Debug, Clone, PartialEq, Eq)]
pub struct ErrorResponse {
    pub error: String,
}

/// A refusal: its status and its body.
#[derive(Debug, Clone, PartialEq, Eq)]
pub struct Rejection {
    pub status: u16,
    pub body: ErrorResponse,
}

/// The mathematical value of a [`Rejection`].
pub struct RejectionView {
    pub status: u16,
    pub error: Seq<char>,
}

impl DeepView for Rejection {
    type V = RejectionView;

    open spec fn deep_view(&self) -> RejectionView {
        RejectionView { status: self.status, error: self.body.error@ }
    }
}

impl View for Rejection {
    type V = RejectionView;

    open spec fn view(&self) -> RejectionView {
        self.deep_view()
    }
}

/// The body of an answer that only reports what was done.
#[derive(Debug, Clone, PartialEq, Eq)]
pub struct MessageResponse {
    pub message: String,
}

impl DeepView for MessageResponse {
    type V = Seq<char>;

    open spec fn deep_view(&self) -> Seq<char> {
        self.message@
    }
}

/// The query of a generation request.
#[derive(Debug, Clone, PartialEq, Eq)]
pub struct GenerateOptionsQuery {
    pub count: Option<usize>,
}

/// The refusal that answers a failure of the route-option service. A failure
/// of the store answers with the same words whatever its cause.
pub open spec fn route_rejection(e: RouteOptionErrorView) -> RejectionView {
    match e {
        RouteOptionErrorView::TravelPlanError(TravelPlanErrorView::NotFound) => RejectionView {
            status: NOT_FOUND,
            error: "Travel plan not found"@,
        },
        RouteOptionErrorView::TravelPlanError(TravelPlanErrorView::Unauthorized) => RejectionView {
            status: FORBIDDEN,
            error: "You don't have permission to access this travel plan"@,
        },
        RouteOptionErrorView::TravelPlanError(TravelPlanErrorView::DatabaseError(_)) => RejectionView {
            status: INTERNAL_SERVER_ERROR,
            error: "Database error"@,
        },
        RouteOptionErrorView::RouteNotFound => RejectionView {
            status: NOT_FOUND,
            error: "Route option not found"@,
        },
        RouteOptionErrorView::InvalidRouteOption => RejectionView {
            status: BAD_REQUEST,
            error: "Route option does not belong to the specified travel plan"@,
        },
        RouteOptionErrorView::DatabaseError(_) => RejectionView {
            status: INTERNAL_SERVER_ERROR,
            error: "Database error"@,
        },
    }
}

/// What the deletion of one route answers: a message where a route went, a
/// refusal with `NOT_FOUND` where none did.
pub open spec fn route_deletion_answer(
    done: Result<bool, RouteOptionErrorView>,
    route_id: Seq<char>,
) -> Result<Seq<char>, RejectionView> {
    match done {
        Ok(true) => Ok("Route option with ID: "@ + route_id + " deleted successfully"@),
        Ok(false) => Err(RejectionView { status: NOT_FOUND, error: "Route option not found"@ }),
        Err(e) => Err(route_rejection(e)),
    }
}

/// What the deletion of the routes of a plan answers: how many went.
pub open spec fn routes_deletion_answer(
    done: Result<usize, RouteOptionErrorView>,
    plan_id: Seq<char>,
) -> Result<Seq<char>, RejectionView> {
    match done {
        Ok(count) => Ok(
            "Deleted "@ + decimal_spec(count as nat) + " route options for travel plan ID: "@
                + plan_id,
        ),
        Err(e) => Err(route_rejection(e)),
    }
}

impl Rejection {
    /// A refusal with a status and a reason.
    pub fn new(status: u16, reason: &str) -> (r: Rejection)
        ensures
            r@ == (RejectionView { status, error: reason@ }),
    {
        Rejection { status, body: ErrorResponse { error: String::from_str(reason) } }
    }

    /// The refusal that answers a failure of the route-option service.
    pub fn of_route_error(e: &RouteOptionError) -> (r: Rejection)
        ensures
            r@ == route_rejection(e@),
    {
        match e {
            RouteOptionError::TravelPlanError(
                crate::services::travel_plan_service::TravelPlanError::NotFound,
            ) => Rejection::new(NOT_FOUND, "Travel plan not found"),
            RouteOptionError::TravelPlanError(
                crate::services::travel_plan_service::TravelPlanError::Unauthorized,
            ) => Rejection::new(FORBIDDEN, "You don't have permission to access this travel plan"),
            RouteOptionError::TravelPlanError(
                crate::services::travel_plan_service::TravelPlanError::DatabaseError(_),
            ) => Rejection::new(INTERNAL_SERVER_ERROR, "Database error"),
            RouteOptionError::RouteNotFound => Rejection::new(NOT_FOUND, "Route option not found"),
            RouteOptionError::InvalidRouteOption => Rejection::new(
                BAD_REQUEST,
                "Route option does not belong to the specified travel plan",
            ),
            RouteOptionError::DatabaseError(_) => Rejection::new(
                INTERNAL_SERVER_ERROR,
                "Database error",
            ),
        }
    }
}

impl GenerateOptionsQuery {
    /// The number of routes that the request asks for: three where it names none.
    pub fn count_or_default(&self) -> (count: usize)
        ensures
            count == match self.count {
                Some(n) => n,
                None => DEFAULT_COUNT,
            },
    {
        match self.count {
            Some(n) => n,
            None => DEFAULT_COUNT,
        }
    }
}

/// Answers the deletion of one route.
pub fn route_deletion_reply(done: Result<bool, RouteOptionError>, route_id: &str) -> (res: Result<
    MessageResponse,
    Rejection,
>)
    ensures
        outcome(res) == route_deletion_answer(outcome(done), route_id@),
{
    match done {
        Ok(true) => {
            let mut message = String::from_str("Route option with ID: ");
            message.append(route_id);
            message.append(" deleted successfully");
            Ok(MessageResponse { message })
        },
        Ok(false) => Err(Rejection::new(NOT_FOUND, "Route option not found")),
        Err(e) => Err(Rejection::of_route_error(&e)),
    }
}

/// Answers the deletion of the routes of a plan.
pub fn routes_deletion_reply(done: Result<usize, RouteOptionError>, plan_id: &str) -> (res: Result<
    MessageResponse,
    Rejection,
>)
    ensures
        outcome(res) == routes_deletion_answer(outcome(done), plan_id@),
{
    match done {
        Ok(count) => {
            let mut message = String::from_str("Deleted ");
            let number = decimal(count as u64);
            message.append(number.as_str());
            message.append(" route options for travel plan ID: ");
            message.append(plan_id);
            Ok(MessageResponse { message })
        },
        Err(e) => Err(Rejection::of_route_error(&e)),
    }
}

/// What an endpoint on routes answers, given what the service returned: the
/// service's result where it succeeded, else the refusal of its failure.
pub open spec fn route_answer<T>(got: Result<T, RouteOptionErrorView>) -> Result<T, RejectionView> {
    match got {
        Ok(value) => Ok(value),
        Err(e) => Err(route_rejection(e)),
    }
}

/// The number of routes that a generation request asks for: three where it names none.
pub open spec fn requested(count: Option<usize>) -> nat {
    match count {
        Some(n) => n as nat,
        None => DEFAULT_COUNT as nat,
    }
}

/// `GET /travelplan/{id}/routes`: answers what listing the routes of the plan
/// gave: the routes with their points of interest, or the refusal of the
/// service's failure. A plan of someone else is refused with `FORBIDDEN`, an
/// absent one with `NOT_FOUND`, and in both cases nothing but the lookup of
/// the plan is exchanged with the store.
pub fn get_route_options(store: &mut Store, auth_user: &AuthenticatedUser, plan_id: &str) -> (res:
    Result<Vec<RouteOptionWithPois>, Rejection>)
    ensures
        exists|done: Result<Seq<RouteOptionWithPoisView>, RouteOptionErrorView>| #[trigger]
            is_route_listing(
                old(store).trail(),
                final(store).trail(),
                plan_id@,
                auth_user.user_id@,
                done,
            ) && outcome(res) == route_answer(done),
{
    let got = RouteOptionService::get_route_options(store, plan_id, auth_user.user_id.as_str());
    let ghost done = outcome(got);
    let res = match got {
        Ok(listed) => Ok(listed),
        Err(e) => Err(Rejection::of_route_error(&e)),
    };
    assert(is_route_listing(
        old(store).trail(),
        store.trail(),
        plan_id@,
        auth_user.user_id@,
        done,
    ) && outcome(res) == route_answer(done));
    res
}

/// `POST /travelplan/{id}/routes/generate`: answers what generating as many
/// routes as the query asks for, three by default, gave: the routes with
/// their points of interest, stored in one transaction, or the refusal of the
/// service's failure. A plan of someone else is refused with `FORBIDDEN`, an
/// absent one with `NOT_FOUND`, and in both cases nothing but the lookup of
/// the plan is exchanged with the store.
pub fn generate_route_options(
    store: &mut Store,
    auth_user: &AuthenticatedUser,
    plan_id: &str,
    query: &GenerateOptionsQuery,
) -> (res: Result<Vec<RouteOptionWithPois>, Rejection>)
    ensures
        exists|done: Result<Seq<RouteOptionWithPoisView>, RouteOptionErrorView>| #[trigger]
            is_generation_exchange(
                old(store).trail(),
                final(store).trail(),
                plan_id@,
                auth_user.user_id@,
                requested(query.count),
                done,
            ) && outcome(res) == route_answer(done),
        res matches Ok(generated) ==> is_generation_for(
            generated.deep_view(),
            plan_id@,
            requested(query.count),
        ),
{
    let count = query.count_or_default();
    let got = RouteOptionService::generate_route_options(
        store,
        plan_id,
        auth_user.user_id.as_str(),
        count,
    );
    let ghost done = outcome(got);
    let res = match got {
        Ok(generated) => Ok(generated),
        Err(e) => Err(Rejection::of_route_error(&e)),
    };
    assert(is_generation_exchange(
        old(store).trail(),
        store.trail(),
        plan_id@,
        auth_user.user_id@,
        requested(query.count),
        done,
    ) && outcome(res) == route_answer(done));
    res
}

/// `GET /travelplan/{plan_id}/routes/{route_id}`: answers what getting the
/// route gave: the route with its points of interest, or the refusal of the
/// service's failure: `FORBIDDEN` for a plan of someone else, `NOT_FOUND` for
/// an absent plan or route, `BAD_REQUEST` for a route of another plan.
pub fn get_route_option_by_id(
    store: &mut Store,
    auth_user: &AuthenticatedUser,
    plan_id: &str,
    route_id: &str,
) -> (res: Result<RouteOptionWithPois, Rejection>)
    ensures
        exists|done: Result<RouteOptionWithPoisView, RouteOptionErrorView>| #[trigger]
            is_route_view(
                old(store).trail(),
                final(store).trail(),
                plan_id@,
                route_id@,
                auth_user.user_id@,
                done,
            ) && outcome(res) == route_answer(done),
        res matches Ok(entry) ==> entry.route.travel_plan_id@ == plan_id@,
{
    let got = RouteOptionService::get_route_option_by_id(
        store,
        plan_id,
        route_id,
        auth_user.user_id.as_str(),
    );
    let ghost done = outcome(got);
    let res = match got {
        Ok(entry) => Ok(entry),
        Err(e) => Err(Rejection::of_route_error(&e)),
    };
    assert(is_route_view(
        old(store).trail(),
        store.trail(),
        plan_id@,
        route_id@,
        auth_user.user_id@,
        done,
    ) && outcome(res) == route_answer(done));
    res
}

/// `DELETE /travelplan/{plan_id}/routes/{route_id}`: answers what deleting
/// the route gave: a message that names the route where it went, `NOT_FOUND`
/// where none did, or the refusal of the service's failure. A plan of someone
/// else is refused with `FORBIDDEN`, and nothing but the lookup of the plan
/// is exchanged with the store.
pub fn delete_route_option(
    store: &mut Store,
    auth_user: &AuthenticatedUser,
    plan_id: &str,
    route_id: &str,
) -> (res: Result<MessageResponse, Rejection>)
    ensures
        exists|done: Result<bool, RouteOptionErrorView>| #[trigger]
            is_route_deletion(
                old(store).trail(),
                final(store).trail(),
                plan_id@,
                route_id@,
                auth_user.user_id@,
                done,
            ) && outcome(res) == route_deletion_answer(done, route_id@),
{
    let got = RouteOptionService::delete_route_option(
        store,
        plan_id,
        route_id,
        auth_user.user_id.as_str(),
    );
    let ghost done = outcome(got);
    let res = route_deletion_reply(got, route_id);
    assert(is_route_deletion(
        old(store).trail(),
        store.trail(),
        plan_id@,
        route_id@,
        auth_user.user_id@,
        done,
    ) && outcome(res) == route_deletion_answer(done, route_id@));
    res
}

/// `DELETE /travelplan/{id}/routes`: answers what deleting the routes of the
/// plan gave: a message that says how many went, or the refusal of the
/// service's failure. A plan of someone else is refused with `FORBIDDEN`, an
/// absent one with `NOT_FOUND`, and in both cases nothing but the lookup of
/// the plan is exchanged with the store.
pub fn delete_all_route_options(store: &mut Store, auth_user: &AuthenticatedUser, plan_id: &str) -> (res:
    Result<MessageResponse, Rejection>)
    ensures
        exists|done: Result<usize, RouteOptionErrorView>| #[trigger]
            is_routes_deletion(
                old(store).trail(),
                final(store).trail(),
                plan_id@,
                auth_user.user_id@,
                done,
            ) && outcome(res) == routes_deletion_answer(done, plan_id@),
{
    let got = RouteOptionService::delete_all_route_options(
        store,
        plan_id,
        auth_user.user_id.as_str(),
    );
    let ghost done = outcome(got);
    let res = routes_deletion_reply(got, plan_id);
    assert(is_routes_deletion(
        old(store).trail(),
        store.trail(),
        plan_id@,
        auth_user.user_id@,
        done,
    ) && outcome(res) == routes_deletion_answer(done, plan_id@));
    res
}

} // verus!
