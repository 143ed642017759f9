//! What the travel-plan endpoints answer: the service's outcome turned into a
//! status and a body.

use crate::db::statement::Store;
use crate::middleware::auth::AuthenticatedUser;
use crate::models::travel_plan::NewTravelPlan;
use crate::models::travel_plan::UpdateTravelPlan;
use crate::routes::route_option::Rejection;
use crate::routes::route_option::RejectionView;
use crate::routes::route_option::FORBIDDEN;
use crate::routes::route_option::INTERNAL_SERVER_ERROR;
use crate::routes::route_option::NOT_FOUND;
use crate::services::travel_plan_service::is_plan_creation;
use crate::services::travel_plan_service::is_plan_deletion;
use crate::services::travel_plan_service::is_plan_listing;
use crate::services::travel_plan_service::is_plan_update;
use crate::services::travel_plan_service::is_plan_view;
use crate::services::travel_plan_service::TravelPlanDto;
use crate::services::travel_plan_service::TravelPlanDtoView;
use crate::services::travel_plan_service::TravelPlanError;
use crate::services::travel_plan_service::TravelPlanErrorView;
use crate::services::travel_plan_service::TravelPlanService;
use crate::views::outcome;
use vstd::prelude::*;

verus! {

/// What a caller wanted to do with a plan.
#[derive(Debug, Clone, Copy, PartialEq, Eq, Structural)]
pub enum PlanAction {
    Access,
    Create,
    Update,
    Delete,
}

/// The words that refuse an action on a plan of someone else.
pub open spec fn forbidden_words(action: PlanAction) -> Seq<char> {
    match action {
        PlanAction::Access => "You don't have permission to access this travel plan"@,
        PlanAction::Create => "You don't have permission to create this travel plan"@,
        PlanAction::Update => "You don't have permission to update this travel plan"@,
        PlanAction::Delete => "You don't have permission to delete this travel plan"@,
    }
}

/// The refusal that answers a failure of the travel-plan service: `NOT_FOUND`
/// for a plan that is absent, `FORBIDDEN` for a plan of someone else,
/// `INTERNAL_SERVER_ERROR` for a failure of the store, which answers with the
/// same words whatever its cause.
pub open spec fn plan_rejection(e: TravelPlanErrorView, action: PlanAction) -> RejectionView {
    match e {
        TravelPlanErrorView::NotFound => RejectionView {
            status: NOT_FOUND,
            error: if action == PlanAction::Create {
                "Resource not found"@
            } else {
                "Travel plan not found"@
            },
        },
        TravelPlanErrorView::Unauthorized => RejectionView {
            status: FORBIDDEN,
            error: forbidden_words(action),
        },
        TravelPlanErrorView::DatabaseError(_) => RejectionView {
            status: INTERNAL_SERVER_ERROR,
            error: "Database error"@,
        },
    }
}

/// The refusal that answers a failure of the travel-plan service.
pub fn reject(e: &TravelPlanError, action: PlanAction) -> (r: Rejection)
    ensures
        r@ == plan_rejection(e@, action),
{
    match e {
        TravelPlanError::NotFound => match action {
            PlanAction::Create => Rejection::new(NOT_FOUND, "Resource not found"),
            _ => Rejection::new(NOT_FOUND, "Travel plan not found"),
        },
        TravelPlanError::Unauthorized => match action {
            PlanAction::Access => Rejection::new(
                FORBIDDEN,
                "You don't have permission to access this travel plan",
            ),
            PlanAction::Create => Rejection::new(
                FORBIDDEN,
                "You don't have permission to create this travel plan",
            ),
            PlanAction::Update => Rejection::new(
                FORBIDDEN,
                "You don't have permission to update this travel plan",
            ),
            PlanAction::Delete => Rejection::new(
                FORBIDDEN,
                "You don't have permission to delete this travel plan",
            ),
        },
        TravelPlanError::DatabaseError(_) => Rejection::new(
            INTERNAL_SERVER_ERROR,
            "Database error",
        ),
    }
}

/// What an endpoint on plans answers, given what the service returned: the
/// service's result where it succeeded, else the refusal of its failure.
pub open spec fn plan_answer<T>(got: Result<T, TravelPlanErrorView>, action: PlanAction) -> Result<
    T,
    RejectionView,
> {
    match got {
        Ok(value) => Ok(value),
        Err(e) => Err(plan_rejection(e, action)),
    }
}

/// `GET /travelplan`: answers what listing the caller's plans gave: the
/// plans, each owned by the caller, or `INTERNAL_SERVER_ERROR` where the
/// store failed.
pub fn get_travel_plans(store: &mut Store, auth_user: &AuthenticatedUser) -> (res: Result<
    Vec<TravelPlanDto>,
    Rejection,
>)
    ensures
        exists|done: Result<Seq<TravelPlanDtoView>, TravelPlanErrorView>| #[trigger]
            is_plan_listing(old(store).trail(), final(store).trail(), auth_user.user_id@, done)
                && outcome(res) == plan_answer(done, PlanAction::Access),
        res matches Ok(dtos) ==> forall|i: int|
            0 <= i < dtos.len() ==> (#[trigger] dtos[i]).travel_plan.user_id@
                == auth_user.user_id@,
{
    let got = TravelPlanService::get_travel_plans(store, auth_user.user_id.as_str());
    let ghost done = outcome(got);
    let res = match got {
        Ok(dtos) => Ok(dtos),
        Err(e) => Err(reject(&e, PlanAction::Access)),
    };
    assert(is_plan_listing(old(store).trail(), store.trail(), auth_user.user_id@, done)
        && outcome(res) == plan_answer(done, PlanAction::Access));
    res
}

/// `GET /travelplan/{id}`: answers what getting the plan gave: the plan,
/// where the caller owns it; a plan of someone else is refused with
/// `FORBIDDEN`, an absent one with `NOT_FOUND`, and in both cases nothing but
/// the lookup of the plan is exchanged with the store; a failure of the store
/// is refused with `INTERNAL_SERVER_ERROR`.
pub fn get_travel_plan_by_id(store: &mut Store, auth_user: &AuthenticatedUser, plan_id: &str) -> (res:
    Result<TravelPlanDto, Rejection>)
    ensures
        exists|done: Result<TravelPlanDtoView, TravelPlanErrorView>| #[trigger]
            is_plan_view(
                old(store).trail(),
                final(store).trail(),
                plan_id@,
                auth_user.user_id@,
                done,
            ) && outcome(res) == plan_answer(done, PlanAction::Access),
        res matches Ok(dto) ==> dto.travel_plan.user_id@ == auth_user.user_id@,
{
    let got = TravelPlanService::get_travel_plan_by_id(
        store,
        plan_id,
        auth_user.user_id.as_str(),
    );
    let ghost done = outcome(got);
    let res = match got {
        Ok(dto) => Ok(dto),
        Err(e) => Err(reject(&e, PlanAction::Access)),
    };
    assert(is_plan_view(old(store).trail(), store.trail(), plan_id@, auth_user.user_id@, done)
        && outcome(res) == plan_answer(done, PlanAction::Access));
    res
}

/// `POST /travelplan`: answers what creating the plan gave: the plan of the
/// given fields, which the caller owns, stored by one insertion; fields with
/// a date that cannot be written, and an insertion that the store refused,
/// are refused with `INTERNAL_SERVER_ERROR`.
pub fn create_travel_plan(store: &mut Store, auth_user: &AuthenticatedUser, plan_data: &NewTravelPlan) -> (res:
    Result<TravelPlanDto, Rejection>)
    ensures
        exists|done: Result<TravelPlanDtoView, TravelPlanErrorView>| #[trigger]
            is_plan_creation(
                old(store).trail(),
                final(store).trail(),
                auth_user.user_id@,
                plan_data@,
                done,
            ) && outcome(res) == plan_answer(done, PlanAction::Create),
{
    let got = TravelPlanService::create_travel_plan(
        store,
        plan_data,
        auth_user.user_id.as_str(),
    );
    let ghost done = outcome(got);
    let res = match got {
        Ok(dto) => Ok(dto),
        Err(e) => Err(reject(&e, PlanAction::Create)),
    };
    assert(is_plan_creation(
        old(store).trail(),
        store.trail(),
        auth_user.user_id@,
        plan_data@,
        done,
    ) && outcome(res) == plan_answer(done, PlanAction::Create));
    res
}

/// `PUT /travelplan/{id}`: answers what updating the plan gave: the updated
/// plan, where the caller owns it; a plan of someone else is refused with
/// `FORBIDDEN`, an absent one with `NOT_FOUND`, and in both cases nothing but
/// the lookup of the plan is exchanged with the store; a failure of the store
/// is refused with `INTERNAL_SERVER_ERROR`.
pub fn update_travel_plan(
    store: &mut Store,
    auth_user: &AuthenticatedUser,
    plan_id: &str,
    update_data: &UpdateTravelPlan,
) -> (res: Result<TravelPlanDto, Rejection>)
    ensures
        exists|done: Result<TravelPlanDtoView, TravelPlanErrorView>| #[trigger]
            is_plan_update(
                old(store).trail(),
                final(store).trail(),
                plan_id@,
                auth_user.user_id@,
                update_data@,
                done,
            ) && outcome(res) == plan_answer(done, PlanAction::Update),
        res matches Ok(dto) ==> dto.travel_plan.user_id@ == auth_user.user_id@,
{
    let got = TravelPlanService::update_travel_plan(
        store,
        plan_id,
        update_data,
        auth_user.user_id.as_str(),
    );
    let ghost done = outcome(got);
    let res = match got {
        Ok(dto) => Ok(dto),
        Err(e) => Err(reject(&e, PlanAction::Update)),
    };
    assert(is_plan_update(
        old(store).trail(),
        store.trail(),
        plan_id@,
        auth_user.user_id@,
        update_data@,
        done,
    ) && outcome(res) == plan_answer(done, PlanAction::Update));
    res
}

/// `DELETE /travelplan/{id}`: answers what deleting the plan gave: nothing,
/// where the plan of the caller went with all that depends on it; a plan of
/// someone else is refused with `FORBIDDEN`, an absent one with `NOT_FOUND`,
/// and in both cases nothing but the lookup of the plan is exchanged with the
/// store; a failure of the store is refused with `INTERNAL_SERVER_ERROR`.
pub fn delete_travel_plan(store: &mut Store, auth_user: &AuthenticatedUser, plan_id: &str) -> (res:
    Result<(), Rejection>)
    ensures
        exists|done: Result<(), TravelPlanErrorView>| #[trigger]
            is_plan_deletion(
                old(store).trail(),
                final(store).trail(),
                plan_id@,
                auth_user.user_id@,
                done,
            ) && outcome(res) == plan_answer(done, PlanAction::Delete),
{
    let got = TravelPlanService::delete_travel_plan(store, plan_id, auth_user.user_id.as_str());
    let ghost done = outcome(got);
    let res = match got {
        Ok(()) => Ok(()),
        Err(e) => Err(reject(&e, PlanAction::Delete)),
    };
    assert(is_plan_deletion(old(store).trail(), store.trail(), plan_id@, auth_user.user_id@, done)
        && outcome(res) == plan_answer(done, PlanAction::Delete));
    res
}

} // verus!
