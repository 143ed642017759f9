//! Travel plans as their owner sees them. Every operation on a plan first
//! looks the plan up and lets [`TravelPlanService::authorize`] decide whether
//! the caller may touch it.

use crate::db::cascade::abandoned;
use crate::db::cascade::committed;
use crate::db::cascade::plan_cascade;
use crate::db::cascade::removed_by;
use crate::db::cascade::run_atomically;
use crate::db::cascade::Deletion;
use crate::db::cascade::DeletionView;
use crate::db::statement::continues;
use crate::db::statement::keyed;
use crate::db::statement::last_changed;
use crate::db::statement::lemma_continues_itself;
use crate::db::statement::lemma_continues_twice;
use crate::db::statement::lemma_one_more_continues;
use crate::db::statement::message_spec;
use crate::db::statement::nth_since;
use crate::db::statement::ran_once;
use crate::db::statement::refused_once;
use crate::db::statement::Exchange;
use crate::db::statement::Store;
use crate::db::statement::StoreError;
use crate::db::statement::StoreErrorView;
use crate::models::route_option::listed_routes;
use crate::models::route_option::RouteOption;
use crate::models::route_option::RouteOptionView;
use crate::models::route_option::SELECT_ROUTES_BY_PLAN;
use crate::models::travel_plan::created_plan;
use crate::models::travel_plan::found_plan;
use crate::models::travel_plan::listed_plans;
use crate::models::travel_plan::plan_insertion;
use crate::models::travel_plan::plan_modification;
use crate::models::travel_plan::storable;
use crate::models::travel_plan::updated_plan;
use crate::models::travel_plan::NewTravelPlan;
use crate::models::travel_plan::TravelPlan;
use crate::models::travel_plan::TravelPlanView;
use crate::models::travel_plan::UpdateTravelPlan;
use crate::models::travel_plan::SELECT_PLANS_BY_USER;
use crate::models::travel_plan::SELECT_PLAN_BY_ID;
use crate::text::str_eq;
use crate::views::outcome;
use vstd::prelude::*;

verus! {

/// The operations on travel plans.
pub struct TravelPlanService;

/// A plan as its owner sees it: the plan, and whether routes have been generated for it.
#[derive(Debug, Clone, PartialEq, Eq)]
pub struct TravelPlanDto {
    pub travel_plan: TravelPlan,
    pub has_routes_generated: bool,
}

/// The mathematical value of a [`TravelPlanDto`].
pub struct TravelPlanDtoView {
    pub travel_plan: TravelPlanView,
    pub has_routes_generated: bool,
}

impl DeepView for TravelPlanDto {
    type V = TravelPlanDtoView;

    open spec fn deep_view(&self) -> TravelPlanDtoView {
        TravelPlanDtoView {
            travel_plan: self.travel_plan@,
            has_routes_generated: self.has_routes_generated,
        }
    }
}

impl View for TravelPlanDto {
    type V = TravelPlanDtoView;

    open spec fn view(&self) -> TravelPlanDtoView {
        self.deep_view()
    }
}

/// Why an operation on a plan failed.
#[derive(Debug, Clone, PartialEq, Eq)]
pub enum TravelPlanError {
    /// No plan has the identifier.
    NotFound,
    /// The plan exists and belongs to someone else.
    Unauthorized,
    /// The store failed; the cause is kept for the log.
    DatabaseError(String),
}

/// The mathematical value of a [`TravelPlanError`].
pub enum TravelPlanErrorView {
    NotFound,
    Unauthorized,
    DatabaseError(Seq<char>),
}

impl DeepView for TravelPlanError {
    type V = TravelPlanErrorView;

    open spec fn deep_view(&self) -> TravelPlanErrorView {
        match self {
            TravelPlanError::NotFound => TravelPlanErrorView::NotFound,
            TravelPlanError::Unauthorized => TravelPlanErrorView::Unauthorized,
            TravelPlanError::DatabaseError(m) => TravelPlanErrorView::DatabaseError(m@),
        }
    }
}

impl View for TravelPlanError {
    type V = TravelPlanErrorView;

    open spec fn view(&self) -> TravelPlanErrorView {
        self.deep_view()
    }
}

/// The ownership check. A plan that was looked up may be touched by its
/// owner and by nobody else: no plan gives `NotFound`, a plan of another
/// user gives `Unauthorized`, a failed lookup gives the store's error.
pub open spec fn access(
    found: Result<Option<TravelPlanView>, StoreErrorView>,
    caller: Seq<char>,
) -> Result<TravelPlanView, TravelPlanErrorView> {
    match found {
        Err(e) => Err(TravelPlanErrorView::DatabaseError(message_spec(e))),
        Ok(None) => Err(TravelPlanErrorView::NotFound),
        Ok(Some(plan)) => if plan.user_id == caller {
            Ok(plan)
        } else {
            Err(TravelPlanErrorView::Unauthorized)
        },
    }
}

/// Whether a lookup of the routes of a plan shows that routes were
/// generated: it found at least one. A failed lookup counts as none.
pub open spec fn shows_routes(routes: Result<Seq<RouteOptionView>, StoreErrorView>) -> bool {
    match routes {
        Ok(found) => found.len() > 0,
        Err(_) => false,
    }
}

/// Those of some plans that a user owns, in their order.
pub open spec fn owned_by(plans: Seq<TravelPlanView>, owner: Seq<char>) -> Seq<TravelPlanView>
    decreases plans.len(),
{
    if plans.len() == 0 {
        Seq::empty()
    } else if plans.last().user_id == owner {
        owned_by(plans.drop_last(), owner).push(plans.last())
    } else {
        owned_by(plans.drop_last(), owner)
    }
}

/// The identifiers of some routes, in their order.
pub open spec fn route_ids(routes: Seq<RouteOptionView>) -> Seq<Seq<char>> {
    Seq::new(routes.len(), |i: int| routes[i].id)
}

/// What deleting a plan gives once its cascade has run: done where the last
/// deletion, that of the plan itself, removed a record; `NotFound` where it
/// removed none; the store's error where the cascade failed.
pub open spec fn plan_deleted(ran: Result<Seq<usize>, StoreErrorView>) -> Result<
    (),
    TravelPlanErrorView,
> {
    match ran {
        Err(e) => Err(TravelPlanErrorView::DatabaseError(message_spec(e))),
        Ok(counts) => if counts.len() > 0 && counts.last() > 0 {
            Ok(())
        } else {
            Err(TravelPlanErrorView::NotFound)
        },
    }
}

/// True where the exchanges after `before` begin with the lookup of the plan
/// with this identifier.
pub open spec fn looked_up(before: Seq<Exchange>, after: Seq<Exchange>, plan_id: Seq<char>) -> bool {
    &&& continues(before, after)
    &&& after.len() > before.len()
    &&& nth_since(before, after, 0) is Fetched
    &&& nth_since(before, after, 0)->asked == keyed(SELECT_PLAN_BY_ID@, plan_id)
}

/// What the ownership check decides on the lookup that the exchanges after
/// `before` begin with.
pub open spec fn decision(before: Seq<Exchange>, after: Seq<Exchange>, caller: Seq<char>) -> Result<
    TravelPlanView,
    TravelPlanErrorView,
> {
    access(found_plan(nth_since(before, after, 0)->rows), caller)
}

/// The ownership protocol of an operation on a plan: the operation begins by
/// looking the plan up, and where the ownership check refuses, nothing more
/// is exchanged with the store.
pub open spec fn guarded(
    before: Seq<Exchange>,
    after: Seq<Exchange>,
    plan_id: Seq<char>,
    caller: Seq<char>,
) -> bool {
    &&& looked_up(before, after, plan_id)
    &&& decision(before, after, caller) is Err ==> after.len() == before.len() + 1
}

/// What an exchange shows of the routes of a plan, where it asked for them.
pub open spec fn routes_shown(exchange: Exchange, plan_id: Seq<char>) -> Option<bool> {
    if exchange is Fetched && exchange->asked == keyed(SELECT_ROUTES_BY_PLAN@, plan_id) {
        Some(shows_routes(listed_routes(exchange->rows)))
    } else {
        None
    }
}

/// True of what getting a plan returns, given the exchanges that it made: the
/// refusal of the ownership check, or the plan that passed it, marked with
/// what one more exchange, the lookup of its routes, showed.
pub open spec fn is_plan_view(
    before: Seq<Exchange>,
    after: Seq<Exchange>,
    plan_id: Seq<char>,
    caller: Seq<char>,
    res: Result<TravelPlanDtoView, TravelPlanErrorView>,
) -> bool {
    &&& guarded(before, after, plan_id, caller)
    &&& match decision(before, after, caller) {
        Err(e) => res == Err::<TravelPlanDtoView, TravelPlanErrorView>(e),
        Ok(plan) => {
            &&& after.len() == before.len() + 2
            &&& routes_shown(after.last(), plan_id) matches Some(shown)
            &&& res == Ok::<TravelPlanDtoView, TravelPlanErrorView>(
                TravelPlanDtoView { travel_plan: plan, has_routes_generated: shown },
            )
        },
    }
}

/// True of what listing the plans of a user returns, given the exchanges
/// that it made: the failure of the listing, after which nothing more is
/// exchanged; or those of the listed plans that the user owns, in their
/// order, each marked with what one more exchange, the lookup of its routes, showed.
pub open spec fn is_plan_listing(
    before: Seq<Exchange>,
    after: Seq<Exchange>,
    caller: Seq<char>,
    res: Result<Seq<TravelPlanDtoView>, TravelPlanErrorView>,
) -> bool {
    &&& continues(before, after)
    &&& after.len() > before.len()
    &&& nth_since(before, after, 0) is Fetched
    &&& nth_since(before, after, 0)->asked == keyed(SELECT_PLANS_BY_USER@, caller)
    &&& match listed_plans(nth_since(before, after, 0)->rows) {
        Err(e) => after.len() == before.len() + 1 && res == Err::<
            Seq<TravelPlanDtoView>,
            TravelPlanErrorView,
        >(TravelPlanErrorView::DatabaseError(message_spec(e))),
        Ok(listed) => {
            &&& res matches Ok(dtos)
            &&& dtos.len() == owned_by(listed, caller).len()
            &&& after.len() == before.len() + 1 + dtos.len()
            &&& forall|i: int|
                0 <= i < dtos.len() ==> {
                    &&& (#[trigger] dtos[i]).travel_plan == owned_by(listed, caller)[i]
                    &&& routes_shown(after[before.len() + 1 + i], dtos[i].travel_plan.id)
                        == Some(dtos[i].has_routes_generated)
                }
        },
    }
}

/// True of what creating a plan returns, given the exchanges that it made.
/// Fields with a date that cannot be written are refused before the store is
/// asked. Else one insertion is the one exchange: where the store did it, the
/// plan returned is the plan of the fields, owned by the caller, which that
/// insertion stored, and no routes have been generated for it; where the
/// store refused it, the failure holds the words of that refusal.
pub open spec fn is_plan_creation(
    before: Seq<Exchange>,
    after: Seq<Exchange>,
    caller: Seq<char>,
    fields: crate::models::travel_plan::NewTravelPlanView,
    res: Result<TravelPlanDtoView, TravelPlanErrorView>,
) -> bool {
    if !(storable(fields.start_date) && storable(fields.end_date)) {
        after == before && res == Err::<TravelPlanDtoView, TravelPlanErrorView>(
            TravelPlanErrorView::DatabaseError(message_spec(StoreErrorView::Timestamp)),
        )
    } else {
        match res {
            Ok(dto) => {
                &&& !dto.has_routes_generated
                &&& dto.travel_plan == created_plan(
                    dto.travel_plan.id,
                    caller,
                    fields,
                    dto.travel_plan.created_at,
                )
                &&& plan_insertion(dto.travel_plan) is Ok
                &&& ran_once(before, after, plan_insertion(dto.travel_plan)->Ok_0)
                &&& last_changed(after) is Ok
            },
            Err(TravelPlanErrorView::DatabaseError(m)) => {
                &&& last_changed(after) matches Err(e)
                &&& e is Engine
                &&& refused_once(before, after, crate::models::travel_plan::INSERT_PLAN@, e)
                &&& m == message_spec(e)
            },
            Err(_) => false,
        }
    }
}

/// True of what updating a plan returns, given the exchanges that it made.
/// The plan is got first, as [`is_plan_view`] says: a refusal of the
/// ownership check is returned, after the one exchange. For a plan that
/// passed: where the update gives it a date that cannot be written, that is
/// the failure and nothing more is exchanged; else the third and last
/// exchange stores the updated plan, and the plan returned is the plan that
/// passed after the update at the instant it names, with the mark that the
/// second exchange showed, or the failure is the refusal of the store.
pub open spec fn is_plan_update(
    before: Seq<Exchange>,
    after: Seq<Exchange>,
    plan_id: Seq<char>,
    caller: Seq<char>,
    update: crate::models::travel_plan::UpdateTravelPlanView,
    res: Result<TravelPlanDtoView, TravelPlanErrorView>,
) -> bool {
    &&& guarded(before, after, plan_id, caller)
    &&& match decision(before, after, caller) {
        Err(e) => res == Err::<TravelPlanDtoView, TravelPlanErrorView>(e),
        Ok(plan) => {
            &&& after.len() >= before.len() + 2
            &&& routes_shown(nth_since(before, after, 1), plan_id) matches Some(shown)
            &&& if !(storable(updated_plan(plan, update, plan.updated_at).start_date)
                && storable(updated_plan(plan, update, plan.updated_at).end_date)) {
                after.len() == before.len() + 2 && res == Err::<
                    TravelPlanDtoView,
                    TravelPlanErrorView,
                >(TravelPlanErrorView::DatabaseError(message_spec(StoreErrorView::Timestamp)))
            } else {
                &&& after.len() == before.len() + 3
                &&& after.last() is Ran
                &&& match res {
                    Ok(dto) => {
                        &&& dto.travel_plan == updated_plan(
                            plan,
                            update,
                            dto.travel_plan.updated_at,
                        )
                        &&& dto.has_routes_generated == shown
                        &&& plan_modification(dto.travel_plan) == Ok::<
                            crate::db::statement::StatementView,
                            StoreErrorView,
                        >(after.last()->ran)
                        &&& after.last()->changed is Ok
                    },
                    Err(TravelPlanErrorView::DatabaseError(m)) => {
                        &&& after.last()->ran.sql == crate::models::travel_plan::UPDATE_PLAN@
                        &&& after.last()->changed matches Err(e)
                        &&& m == message_spec(e)
                    },
                    Err(_) => false,
                }
            }
        },
    }
}

/// True of what a cascade that deletes a plan gives, given the exchanges
/// that it made after `listed`: done where the cascade was committed and its
/// last deletion, that of the plan, removed a record; `NotFound` where it was
/// committed and that deletion removed none; the refusal of the store where
/// the cascade was abandoned, and then rolled back.
pub open spec fn is_plan_cascade(
    listed: Seq<Exchange>,
    after: Seq<Exchange>,
    cascade: Seq<DeletionView>,
    res: Result<(), TravelPlanErrorView>,
) -> bool {
    match res {
        Ok(_) => committed(listed, after, cascade) && removed_by(
            listed,
            after,
            cascade.len() - 1,
        ) > 0,
        Err(TravelPlanErrorView::NotFound) => committed(listed, after, cascade) && removed_by(
            listed,
            after,
            cascade.len() - 1,
        ) == 0,
        Err(TravelPlanErrorView::DatabaseError(m)) => exists|e: StoreErrorView| #[trigger]
            abandoned(listed, after, cascade, e) && m == message_spec(e),
        Err(TravelPlanErrorView::Unauthorized) => false,
    }
}

/// True of what deleting a plan returns, given the exchanges that it made: a
/// refusal of the ownership check is returned, after the one exchange. For a
/// plan that passed, the second exchange lists its routes: a failure of the
/// listing is returned, and nothing more is exchanged; else what follows is
/// the cascade over the listed routes, and the result is what
/// [`is_plan_cascade`] says of it.
pub open spec fn is_plan_deletion(
    before: Seq<Exchange>,
    after: Seq<Exchange>,
    plan_id: Seq<char>,
    caller: Seq<char>,
    res: Result<(), TravelPlanErrorView>,
) -> bool {
    &&& guarded(before, after, plan_id, caller)
    &&& match decision(before, after, caller) {
        Err(e) => res == Err::<(), TravelPlanErrorView>(e),
        Ok(_) => {
            &&& after.len() >= before.len() + 2
            &&& nth_since(before, after, 1) is Fetched
            &&& nth_since(before, after, 1)->asked == keyed(SELECT_ROUTES_BY_PLAN@, plan_id)
            &&& match listed_routes(nth_since(before, after, 1)->rows) {
                Err(e) => after.len() == before.len() + 2 && res == Err::<
                    (),
                    TravelPlanErrorView,
                >(TravelPlanErrorView::DatabaseError(message_spec(e))),
                Ok(routes) => is_plan_cascade(
                    after.take(before.len() as int + 2),
                    after,
                    plan_cascade(plan_id, route_ids(routes)),
                    res,
                ),
            }
        },
    }
}

/// Ownership isolation: whoever is not the owner of a plan is refused with
/// `Unauthorized`, whatever the plan holds, and so learns nothing of it.
pub proof fn lemma_ownership_isolation(plan: TravelPlanView, caller: Seq<char>)
    requires
        plan.user_id != caller,
    ensures
        access(Ok(Some(plan)), caller) == Err::<TravelPlanView, TravelPlanErrorView>(
            TravelPlanErrorView::Unauthorized,
        ),
{
}

/// Ownership isolation, for every operation that keeps the ownership
/// protocol: where the plan that the store shows belongs to someone else, the
/// ownership check decides `Unauthorized`, and the lookup of the plan is the
/// only exchange with the store: nothing of the plan is read further, shown
/// or changed.
pub proof fn lemma_stranger_is_refused(
    before: Seq<Exchange>,
    after: Seq<Exchange>,
    plan_id: Seq<char>,
    caller: Seq<char>,
    plan: TravelPlanView,
)
    requires
        guarded(before, after, plan_id, caller),
        found_plan(nth_since(before, after, 0)->rows) == Ok::<
            Option<TravelPlanView>,
            StoreErrorView,
        >(Some(plan)),
        plan.user_id != caller,
    ensures
        decision(before, after, caller) == Err::<TravelPlanView, TravelPlanErrorView>(
            TravelPlanErrorView::Unauthorized,
        ),
        after.len() == before.len() + 1,
{
}

/// Cascade completeness of a deleted plan. Where a deletion of a plan
/// succeeded, the statements that it committed are the cascade over the
/// routes that it listed; and in tables whose routes of the plan are all
/// among the listed ones, that cascade leaves no plan of this identifier, no
/// route of the plan, and no point of interest of any route that the plan had.
pub proof fn lemma_deleted_plan_leaves_nothing(
    before: Seq<Exchange>,
    after: Seq<Exchange>,
    plan_id: Seq<char>,
    caller: Seq<char>,
    tables: crate::db::cascade::Tables,
)
    requires
        is_plan_deletion(before, after, plan_id, caller, Ok(())),
        forall|route: Seq<char>| #[trigger]
            crate::db::cascade::is_route_of(tables, route, plan_id) ==> route_ids(
                listed_routes(nth_since(before, after, 1)->rows)->Ok_0,
            ).contains(route),
    ensures
        ({
            let routes = route_ids(listed_routes(nth_since(before, after, 1)->rows)->Ok_0);
            let cascade = plan_cascade(plan_id, routes);
            let end = crate::db::cascade::after_all(tables, cascade);
            &&& committed(after.take(before.len() as int + 2), after, cascade)
            &&& !end.plans.contains(plan_id)
            &&& forall|route: Seq<char>|
                !#[trigger] crate::db::cascade::is_route_of(end, route, plan_id)
            &&& forall|poi: Seq<char>| #[trigger]
                end.pois.contains_key(poi) ==> tables.pois.contains_key(poi)
                    && !crate::db::cascade::is_route_of(tables, tables.pois[poi], plan_id)
        }),
{
    let routes = route_ids(listed_routes(nth_since(before, after, 1)->rows)->Ok_0);
    crate::db::cascade::lemma_plan_cascade_complete(tables, plan_id, routes);
}

/// The ownership check lets a plan through only to its owner, and unchanged.
pub proof fn lemma_access_is_ownership(
    found: Result<Option<TravelPlanView>, StoreErrorView>,
    caller: Seq<char>,
)
    ensures
        access(found, caller) matches Ok(plan) ==> found == Ok::<
            Option<TravelPlanView>,
            StoreErrorView,
        >(Some(plan)) && plan.user_id == caller,
{
}

/// Every plan among those that a user owns is owned by that user and is one of the plans given.
pub proof fn lemma_owned_by(plans: Seq<TravelPlanView>, owner: Seq<char>)
    ensures
        forall|i: int|
            0 <= i < owned_by(plans, owner).len() ==> (#[trigger] owned_by(plans, owner)[i]).user_id
                == owner && plans.contains(owned_by(plans, owner)[i]),
        forall|j: int|
            0 <= j < plans.len() && (#[trigger] plans[j]).user_id == owner ==> owned_by(
                plans,
                owner,
            ).contains(plans[j]),
    decreases plans.len(),
{
    if plans.len() > 0 {
        let earlier = plans.drop_last();
        lemma_owned_by(earlier, owner);
        let kept = owned_by(plans, owner);
        assert forall|i: int| 0 <= i < kept.len() implies (#[trigger] kept[i]).user_id == owner
            && plans.contains(kept[i]) by {
            if i < owned_by(earlier, owner).len() {
                let plan = owned_by(earlier, owner)[i];
                assert(kept[i] == plan);
                assert(earlier.contains(plan));
                let k = choose|k: int| 0 <= k < earlier.len() && earlier[k] == plan;
                assert(plans[k] == plan);
            } else {
                assert(kept[i] == plans.last());
                assert(plans[plans.len() - 1] == plans.last());
            }
        }
        assert forall|j: int| 0 <= j < plans.len() && (#[trigger] plans[j]).user_id
            == owner implies kept.contains(plans[j]) by {
            if j < earlier.len() {
                assert(earlier[j] == plans[j]);
                assert(owned_by(earlier, owner).contains(plans[j]));
                let k = choose|k: int|
                    0 <= k < owned_by(earlier, owner).len() && owned_by(earlier, owner)[k]
                        == plans[j];
                assert(kept[k] == plans[j]);
            } else {
                assert(kept[kept.len() - 1] == plans[j]);
            }
        }
    }
}

impl TravelPlanError {
    /// The error of this service for a failure of the store.
    pub fn from_store(error: &StoreError) -> (e: TravelPlanError)
        ensures
            e@ == TravelPlanErrorView::DatabaseError(message_spec(error@)),
    {
        TravelPlanError::DatabaseError(error.message())
    }
}

impl TravelPlanService {
    /// The ownership check on a plan that was looked up.
    pub fn authorize(found: Result<Option<TravelPlan>, StoreError>, user_id: &str) -> (res: Result<
        TravelPlan,
        TravelPlanError,
    >)
        ensures
            outcome(res) == access(outcome(found), user_id@),
    {
        match found {
            Err(e) => Err(TravelPlanError::from_store(&e)),
            Ok(None) => Err(TravelPlanError::NotFound),
            Ok(Some(plan)) => if str_eq(plan.user_id.as_str(), user_id) {
                Ok(plan)
            } else {
                Err(TravelPlanError::Unauthorized)
            },
        }
    }

    /// Looks the plan up and lets the ownership check decide: the one
    /// exchange that every operation on a plan begins with.
    pub fn owned(store: &mut Store, plan_id: &str, user_id: &str) -> (res: Result<
        TravelPlan,
        TravelPlanError,
    >)
        ensures
            looked_up(old(store).trail(), final(store).trail(), plan_id@),
            final(store).trail().len() == old(store).trail().len() + 1,
            outcome(res) == decision(old(store).trail(), final(store).trail(), user_id@),
    {
        let found = TravelPlan::find_by_id(store, plan_id);
        proof {
            lemma_one_more_continues(old(store).trail(), store.trail());
        }
        TravelPlanService::authorize(found, user_id)
    }

    /// The plan with the mark of whether a lookup of its routes found any.
    pub fn annotate(plan: TravelPlan, routes: &Result<Vec<RouteOption>, StoreError>) -> (dto:
        TravelPlanDto)
        ensures
            dto.travel_plan == plan,
            dto.has_routes_generated == shows_routes(outcome(*routes)),
    {
        let has_routes_generated = match routes {
            Ok(found) => found.len() > 0,
            Err(_) => false,
        };
        TravelPlanDto { travel_plan: plan, has_routes_generated }
    }

    /// Looks the routes of a plan up and marks the plan with whether there are any.
    pub fn marked(store: &mut Store, plan: TravelPlan) -> (dto: TravelPlanDto)
        ensures
            final(store).trail().len() == old(store).trail().len() + 1,
            final(store).trail().drop_last() == old(store).trail(),
            dto.travel_plan == plan,
            routes_shown(final(store).trail().last(), plan.id@) == Some(dto.has_routes_generated),
    {
        let routes = RouteOption::find_by_travel_plan_id(store, plan.id.as_str());
        TravelPlanService::annotate(plan, &routes)
    }

    /// Keeps those of some plans that a user owns.
    pub fn keep_owned(plans: &Vec<TravelPlan>, user_id: &str) -> (kept: Vec<TravelPlan>)
        ensures
            kept.deep_view() == owned_by(plans.deep_view(), user_id@),
    {
        let mut kept: Vec<TravelPlan> = Vec::new();
        let mut i: usize = 0;
        assert(plans.deep_view().take(0) =~= Seq::<TravelPlanView>::empty());
        assert(kept.deep_view() =~= Seq::<TravelPlanView>::empty());
        while i < plans.len()
            invariant
                i <= plans.len(),
                kept.deep_view() == owned_by(plans.deep_view().take(i as int), user_id@),
            decreases plans.len() - i,
        {
            let ghost before = plans.deep_view().take(i as int);
            let ghost after = plans.deep_view().take(i + 1);
            assert(after.drop_last() =~= before);
            assert(after.last() == plans[i as int]@);
            if str_eq(plans[i].user_id.as_str(), user_id) {
                let ghost earlier = kept.deep_view();
                let plan = plans[i].copy();
                kept.push(plan);
                assert(kept.deep_view() =~= earlier.push(plans[i as int]@));
            }
            i = i + 1;
        }
        assert(plans.deep_view().take(plans.len() as int) =~= plans.deep_view());
        kept
    }

    /// The plans of a user, the most recently created first, each with the
    /// mark of whether routes were generated for it. The plans are listed by
    /// one exchange; only those that the user owns are kept, whatever the
    /// store answers; and one more exchange for each of them shows its routes.
    pub fn get_travel_plans(store: &mut Store, user_id: &str) -> (res: Result<
        Vec<TravelPlanDto>,
        TravelPlanError,
    >)
        ensures
            is_plan_listing(
                old(store).trail(),
                final(store).trail(),
                user_id@,
                outcome(res),
            ),
            res matches Ok(dtos) ==> forall|i: int|
                0 <= i < dtos.len() ==> (#[trigger] dtos[i]).travel_plan.user_id@ == user_id@,
            res matches Err(e) ==> e is DatabaseError,
    {
        let ghost before = store.trail();
        let found = match TravelPlan::find_by_user_id(store, user_id) {
            Ok(plans) => plans,
            Err(e) => {
                proof {
                    lemma_one_more_continues(before, store.trail());
                }
                return Err(TravelPlanError::from_store(&e));
            },
        };
        let ghost asked = store.trail();
        let ghost listed = found.deep_view();
        let plans = TravelPlanService::keep_owned(&found, user_id);
        proof {
            lemma_owned_by(listed, user_id@);
            lemma_one_more_continues(before, asked);
            lemma_continues_itself(asked);
        }
        let mut dtos: Vec<TravelPlanDto> = Vec::new();
        let mut i: usize = 0;
        while i < plans.len()
            invariant
                i <= plans.len(),
                dtos.len() == i,
                before == old(store).trail(),
                plans.deep_view() == owned_by(listed, user_id@),
                continues(before, store.trail()),
                continues(asked, store.trail()),
                asked.len() == before.len() + 1,
                store.trail().len() == before.len() + 1 + i,
                forall|j: int|
                    0 <= j < plans.len() ==> (#[trigger] plans.deep_view()[j]).user_id == user_id@,
                forall|j: int|
                    0 <= j < i ==> {
                        &&& (#[trigger] dtos.deep_view()[j]).travel_plan == plans.deep_view()[j]
                        &&& routes_shown(
                            store.trail()[before.len() + 1 + j],
                            dtos.deep_view()[j].travel_plan.id,
                        ) == Some(dtos.deep_view()[j].has_routes_generated)
                    },
            decreases plans.len() - i,
        {
            let plan = plans[i].copy();
            assert(plan@ == plans.deep_view()[i as int]);
            let ghost so_far = store.trail();
            let ghost earlier = dtos.deep_view();
            let dto = TravelPlanService::marked(store, plan);
            let ghost added = dto.deep_view();
            dtos.push(dto);
            proof {
                let after = store.trail();
                assert(dtos.deep_view() =~= earlier.push(added));
                lemma_one_more_continues(so_far, after);
                lemma_continues_twice(before, so_far, after);
                lemma_continues_twice(asked, so_far, after);
                assert forall|j: int| 0 <= j < i + 1 implies {
                    &&& (#[trigger] dtos.deep_view()[j]).travel_plan == plans.deep_view()[j]
                    &&& routes_shown(
                        after[before.len() + 1 + j],
                        dtos.deep_view()[j].travel_plan.id,
                    ) == Some(dtos.deep_view()[j].has_routes_generated)
                } by {
                    if j < i {
                        assert(after[before.len() + 1 + j] == so_far[before.len() + 1 + j]);
                        assert(dtos.deep_view()[j] == earlier[j]);
                    } else {
                        assert(after[before.len() + 1 + j] == after.last());
                    }
                }
            }
            i = i + 1;
        }
        proof {
            let after = store.trail();
            assert(nth_since(before, after, 0) == nth_since(before, asked, 0));
            assert(nth_since(before, asked, 0) == asked.last());
            assert forall|k: int| 0 <= k < dtos.len() implies (#[trigger] dtos[k]).travel_plan.user_id@
                == user_id@ by {
                assert(dtos.deep_view()[k].travel_plan == plans.deep_view()[k]);
            }
        }
        Ok(dtos)
    }

    /// The plan with this identifier, for its owner. The plan is looked up
    /// and [`TravelPlanService::authorize`] decides; a plan that passes is
    /// marked with what a lookup of its routes shows. Whatever the store
    /// answers, a plan comes back only to the user who owns it, and a caller
    /// who is refused causes no further exchange with the store.
    pub fn get_travel_plan_by_id(store: &mut Store, plan_id: &str, user_id: &str) -> (res: Result<
        TravelPlanDto,
        TravelPlanError,
    >)
        ensures
            is_plan_view(
                old(store).trail(),
                final(store).trail(),
                plan_id@,
                user_id@,
                outcome(res),
            ),
            res matches Ok(dto) ==> dto.travel_plan.user_id@ == user_id@,
    {
        let ghost before = store.trail();
        let plan = match TravelPlanService::owned(store, plan_id, user_id) {
            Ok(plan) => plan,
            Err(e) => {
                return Err(e);
            },
        };
        let ghost asked = store.trail();
        let ghost looked = plan@;
        let routes = RouteOption::find_by_travel_plan_id(store, plan_id);
        proof {
            let after = store.trail();
            lemma_one_more_continues(asked, after);
            lemma_continues_twice(before, asked, after);
            assert(nth_since(before, after, 0) == nth_since(before, asked, 0));
        }
        Ok(TravelPlanService::annotate(plan, &routes))
    }

    /// Creates a plan of the given fields. Its owner is the caller, whatever
    /// owner the fields name; no routes have been generated for it. The one
    /// exchange with the store is the insertion of the plan; fields with a
    /// date that cannot be written are refused before it.
    pub fn create_travel_plan(store: &mut Store, plan_data: &NewTravelPlan, user_id: &str) -> (res:
        Result<TravelPlanDto, TravelPlanError>)
        ensures
            is_plan_creation(
                old(store).trail(),
                final(store).trail(),
                user_id@,
                plan_data@,
                outcome(res),
            ),
    {
        match TravelPlan::create(store, plan_data, user_id) {
            Ok(plan) => Ok(TravelPlanDto { travel_plan: plan, has_routes_generated: false }),
            Err(e) => Err(TravelPlanError::from_store(&e)),
        }
    }

    /// Applies a partial update to the plan with this identifier, for its
    /// owner. The plan is got as in
    /// [`TravelPlanService::get_travel_plan_by_id`]; a caller who is refused
    /// causes no further exchange with the store. The plan returned is the
    /// plan that passed the ownership check after the update: the fields that
    /// the update holds are replaced, the others kept, `updated_at` is the
    /// instant of the update, and the plan was stored by the last exchange.
    pub fn update_travel_plan(
        store: &mut Store,
        plan_id: &str,
        update_data: &UpdateTravelPlan,
        user_id: &str,
    ) -> (res: Result<TravelPlanDto, TravelPlanError>)
        ensures
            is_plan_update(
                old(store).trail(),
                final(store).trail(),
                plan_id@,
                user_id@,
                update_data@,
                outcome(res),
            ),
            res matches Ok(dto) ==> dto.travel_plan.user_id@ == user_id@,
    {
        let ghost before = store.trail();
        let current = match TravelPlanService::get_travel_plan_by_id(store, plan_id, user_id) {
            Ok(current) => current,
            Err(e) => {
                return Err(e);
            },
        };
        let ghost got = store.trail();
        proof {
            assert(nth_since(before, got, 1) == got.last());
            assert(updated_plan(
                current.travel_plan@,
                update_data@,
                current.travel_plan.updated_at,
            ).start_date == updated_plan(
                current.travel_plan@,
                update_data@,
                current.travel_plan@.updated_at,
            ).start_date);
        }
        match current.travel_plan.update(store, update_data) {
            Ok(plan) => {
                proof {
                    let after = store.trail();
                    lemma_one_more_continues(got, after);
                    lemma_continues_twice(before, got, after);
                    assert(nth_since(before, after, 0) == nth_since(before, got, 0));
                    assert(nth_since(before, after, 1) == nth_since(before, got, 1));
                }
                Ok(
                    TravelPlanDto {
                        travel_plan: plan,
                        has_routes_generated: current.has_routes_generated,
                    },
                )
            },
            Err(e) => {
                proof {
                    let after = store.trail();
                    if after != got {
                        lemma_one_more_continues(got, after);
                        lemma_continues_twice(before, got, after);
                        assert(nth_since(before, after, 0) == nth_since(before, got, 0));
                        assert(nth_since(before, after, 1) == nth_since(before, got, 1));
                    }
                }
                Err(TravelPlanError::from_store(&e))
            },
        }
    }

    /// The cascade that deletes a plan with the routes that were found for it.
    pub fn deletions(plan_id: &str, routes: &Vec<RouteOption>) -> (steps: Vec<Deletion>)
        ensures
            steps.deep_view() == plan_cascade(plan_id@, route_ids(routes.deep_view())),
    {
        let mut steps: Vec<Deletion> = Vec::new();
        let mut i: usize = 0;
        let ghost ids = route_ids(routes.deep_view());
        while i < routes.len()
            invariant
                i <= routes.len(),
                ids == route_ids(routes.deep_view()),
                steps.len() == i,
                forall|j: int|
                    0 <= j < i ==> (#[trigger] steps.deep_view()[j]) == DeletionView::PoisOfRoute(
                        ids[j],
                    ),
            decreases routes.len() - i,
        {
            let ghost earlier = steps.deep_view();
            steps.push(Deletion::PoisOfRoute(routes[i].id.clone()));
            assert(steps.deep_view() =~= earlier.push(DeletionView::PoisOfRoute(ids[i as int])));
            i = i + 1;
        }
        let ghost listed = steps.deep_view();
        steps.push(Deletion::RoutesOfPlan(String::from_str(plan_id)));
        steps.push(Deletion::Plan(String::from_str(plan_id)));
        assert(steps.deep_view() =~= listed.push(DeletionView::RoutesOfPlan(plan_id@)).push(
            DeletionView::Plan(plan_id@),
        ));
        assert(steps.deep_view() =~= plan_cascade(plan_id@, ids));
        steps
    }

    /// What deleting a plan gives once its cascade has run.
    pub fn deleted(ran: Result<Vec<usize>, StoreError>) -> (res: Result<(), TravelPlanError>)
        ensures
            outcome(res) == plan_deleted(
                match ran {
                    Ok(counts) => Ok(counts@),
                    Err(e) => Err(e@),
                },
            ),
    {
        match ran {
            Err(e) => Err(TravelPlanError::from_store(&e)),
            Ok(counts) => if counts.len() > 0 && counts[counts.len() - 1] > 0 {
                Ok(())
            } else {
                Err(TravelPlanError::NotFound)
            },
        }
    }

    /// Deletes the plan with this identifier, for its owner, together with
    /// all its routes and their points of interest. The plan is looked up and
    /// [`TravelPlanService::authorize`] decides; a caller who is refused
    /// causes no further exchange with the store. Then the routes of the plan
    /// are listed and the cascade of [`TravelPlanService::deletions`] runs in
    /// one transaction: the points of interest of each listed route, the
    /// routes, the plan. `Ok` says that the cascade was committed and that
    /// the plan went with it. A failure of the store at any step undoes the
    /// cascade and is reported as `DatabaseError`.
    pub fn delete_travel_plan(store: &mut Store, plan_id: &str, user_id: &str) -> (res: Result<
        (),
        TravelPlanError,
    >)
        ensures
            is_plan_deletion(
                old(store).trail(),
                final(store).trail(),
                plan_id@,
                user_id@,
                outcome(res),
            ),
    {
        let ghost before = store.trail();
        let _plan = match TravelPlanService::owned(store, plan_id, user_id) {
            Ok(plan) => plan,
            Err(e) => {
                return Err(e);
            },
        };
        let ghost asked = store.trail();
        let routes = match RouteOption::find_by_travel_plan_id(store, plan_id) {
            Ok(routes) => routes,
            Err(e) => {
                proof {
                    let after = store.trail();
                    lemma_one_more_continues(asked, after);
                    lemma_continues_twice(before, asked, after);
                    assert(nth_since(before, after, 0) == nth_since(before, asked, 0));
                    assert(nth_since(before, after, 1) == after.last());
                }
                return Err(TravelPlanError::from_store(&e));
            },
        };
        let ghost listed = store.trail();
        let steps = TravelPlanService::deletions(plan_id, &routes);
        let ran = run_atomically(store, &steps);
        proof {
            let after = store.trail();
            lemma_one_more_continues(asked, listed);
            lemma_continues_twice(before, asked, listed);
            lemma_continues_twice(before, listed, after);
            assert(nth_since(before, after, 0) == nth_since(before, listed, 0));
            assert(nth_since(before, listed, 0) == nth_since(before, asked, 0));
            assert(nth_since(before, after, 1) == nth_since(before, listed, 1));
            assert(nth_since(before, listed, 1) == listed.last());
            assert(after.take(before.len() as int + 2) =~= listed);
        }
        let ghost counted: Option<Seq<usize>> = if ran is Ok {
            Some(ran->Ok_0@)
        } else {
            None
        };
        let ghost failed: Option<StoreErrorView> = if ran is Err {
            Some(ran->Err_0@)
        } else {
            None
        };
        let res = TravelPlanService::deleted(ran);
        proof {
            let ids = route_ids(routes.deep_view());
            let cascade = plan_cascade(plan_id@, ids);
            assert(cascade.len() == ids.len() + 2);
            if counted is Some {
                let counts = counted->Some_0;
                assert(counts.len() == ids.len() + 2);
                assert(counts.last() == counts[ids.len() as int + 1]);
            } else {
                let e = failed->Some_0;
                assert(abandoned(listed, store.trail(), cascade, e));
            }
        }
        res
    }
}

} // verus!
