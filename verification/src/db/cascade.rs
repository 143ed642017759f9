//! Cascading deletes: the deletions that remove a record together with what
//! depends on it, what they do to the three dependent tables, and why nothing
//! that depended on the record is left afterwards.

use crate::db::statement::continues;
use crate::db::statement::lemma_continues_twice;
use crate::db::statement::lemma_one_more_continues;
use crate::db::statement::nth_since;
use crate::db::statement::plain;
use crate::db::statement::ran_once;
use crate::db::statement::Exchange;
use crate::db::statement::Store;
use crate::db::statement::StoreErrorView;
use crate::db::statement::BEGIN;
use crate::db::statement::COMMIT;
use crate::db::statement::ROLLBACK;
use crate::views::outcome;
use crate::db::statement::SqlValueView;
use crate::db::statement::Statement;
use crate::db::statement::StatementView;
use crate::db::statement::StoreError;
use vstd::prelude::*;

verus! {

pub const DELETE_POIS_OF_ROUTE: &'static str =
    "DELETE FROM points_of_interest WHERE route_option_id = ?1";

pub const DELETE_ROUTE: &'static str = "DELETE FROM route_options WHERE id = ?1";

pub const DELETE_ROUTES_OF_PLAN: &'static str =
    "DELETE FROM route_options WHERE travel_plan_id = ?1";

pub const DELETE_PLAN: &'static str = "DELETE FROM travel_plans WHERE id = ?1";

/// One deletion of a cascade, with the identifier that selects what goes.
#[derive(Debug, Clone, PartialEq, Eq)]
pub enum Deletion {
    /// All points of interest of the route with this identifier.
    PoisOfRoute(String),
    /// The route with this identifier.
    Route(String),
    /// All routes of the plan with this identifier.
    RoutesOfPlan(String),
    /// The plan with this identifier.
    Plan(String),
}

/// The mathematical value of a [`Deletion`].
pub enum DeletionView {
    PoisOfRoute(Seq<char>),
    Route(Seq<char>),
    RoutesOfPlan(Seq<char>),
    Plan(Seq<char>),
}

impl DeepView for Deletion {
    type V = DeletionView;

    open spec fn deep_view(&self) -> DeletionView {
        match self {
            Deletion::PoisOfRoute(id) => DeletionView::PoisOfRoute(id@),
            Deletion::Route(id) => DeletionView::Route(id@),
            Deletion::RoutesOfPlan(id) => DeletionView::RoutesOfPlan(id@),
            Deletion::Plan(id) => DeletionView::Plan(id@),
        }
    }
}

impl View for Deletion {
    type V = DeletionView;

    open spec fn view(&self) -> DeletionView {
        self.deep_view()
    }
}

/// The three tables that hang together, as far as deleting is concerned:
/// which plans exist, which plan each route belongs to, which route each point
/// of interest belongs to.
pub struct Tables {
    pub plans: Set<Seq<char>>,
    pub routes: Map<Seq<char>, Seq<char>>,
    pub pois: Map<Seq<char>, Seq<char>>,
}

/// True of a route that the tables hold for this plan.
pub open spec fn is_route_of(tables: Tables, route: Seq<char>, plan: Seq<char>) -> bool {
    tables.routes.contains_key(route) && tables.routes[route] == plan
}

/// True of a point of interest that the tables hold for this route.
pub open spec fn is_poi_of(tables: Tables, poi: Seq<char>, route: Seq<char>) -> bool {
    tables.pois.contains_key(poi) && tables.pois[poi] == route
}

/// The tables after one deletion.
pub open spec fn after(tables: Tables, deletion: DeletionView) -> Tables {
    match deletion {
        DeletionView::PoisOfRoute(route) => Tables {
            pois: Map::new(
                |poi: Seq<char>| tables.pois.contains_key(poi) && tables.pois[poi] != route,
                |poi: Seq<char>| tables.pois[poi],
            ),
            ..tables
        },
        DeletionView::Route(route) => Tables { routes: tables.routes.remove(route), ..tables },
        DeletionView::RoutesOfPlan(plan) => Tables {
            routes: Map::new(
                |route: Seq<char>| tables.routes.contains_key(route) && tables.routes[route] != plan,
                |route: Seq<char>| tables.routes[route],
            ),
            ..tables
        },
        DeletionView::Plan(plan) => Tables { plans: tables.plans.remove(plan), ..tables },
    }
}

/// The tables after some deletions, made in their order.
pub open spec fn after_all(tables: Tables, deletions: Seq<DeletionView>) -> Tables
    decreases deletions.len(),
{
    if deletions.len() == 0 {
        tables
    } else {
        after(after_all(tables, deletions.drop_last()), deletions.last())
    }
}

/// The deletions of the points of interest of some routes, route by route.
pub open spec fn pois_of_routes(routes: Seq<Seq<char>>) -> Seq<DeletionView> {
    Seq::new(routes.len(), |i: int| DeletionView::PoisOfRoute(routes[i]))
}

/// The cascade that deletes one route: its points of interest, then the route.
pub open spec fn route_cascade(route: Seq<char>) -> Seq<DeletionView> {
    seq![DeletionView::PoisOfRoute(route), DeletionView::Route(route)]
}

/// The cascade that deletes the routes of a plan: the points of interest of
/// each of the given routes, then all routes of the plan.
pub open spec fn routes_cascade(plan: Seq<char>, routes: Seq<Seq<char>>) -> Seq<DeletionView> {
    pois_of_routes(routes).push(DeletionView::RoutesOfPlan(plan))
}

/// The cascade that deletes a plan: the points of interest of each of the
/// given routes, then all routes of the plan, then the plan.
pub open spec fn plan_cascade(plan: Seq<char>, routes: Seq<Seq<char>>) -> Seq<DeletionView> {
    routes_cascade(plan, routes).push(DeletionView::Plan(plan))
}

/// Deleting the points of interest of some routes leaves the plans and the
/// routes as they are, and leaves exactly the points of the other routes.
pub proof fn lemma_pois_of_routes(tables: Tables, routes: Seq<Seq<char>>)
    ensures
        after_all(tables, pois_of_routes(routes)).plans == tables.plans,
        after_all(tables, pois_of_routes(routes)).routes == tables.routes,
        forall|poi: Seq<char>| #[trigger]
            after_all(tables, pois_of_routes(routes)).pois.contains_key(poi) <==> (
            tables.pois.contains_key(poi) && !routes.contains(tables.pois[poi])),
        forall|poi: Seq<char>| #[trigger]
            after_all(tables, pois_of_routes(routes)).pois.contains_key(poi) ==> after_all(
                tables,
                pois_of_routes(routes),
            ).pois[poi] == tables.pois[poi],
    decreases routes.len(),
{
    if routes.len() > 0 {
        let earlier = routes.drop_last();
        lemma_pois_of_routes(tables, earlier);
        assert(pois_of_routes(routes).drop_last() =~= pois_of_routes(earlier));
        assert(pois_of_routes(routes).last() == DeletionView::PoisOfRoute(routes.last()));
        let before = after_all(tables, pois_of_routes(earlier));
        let end = after_all(tables, pois_of_routes(routes));
        assert(end == after(before, DeletionView::PoisOfRoute(routes.last())));
        assert forall|poi: Seq<char>| #[trigger]
            end.pois.contains_key(poi) <==> (tables.pois.contains_key(poi) && !routes.contains(
                tables.pois[poi],
            )) by {
            if tables.pois.contains_key(poi) {
                let route = tables.pois[poi];
                if routes.contains(route) {
                    let i = choose|i: int| 0 <= i < routes.len() && routes[i] == route;
                    if i < earlier.len() {
                        assert(earlier[i] == route);
                    }
                } else {
                    assert forall|i: int| 0 <= i < earlier.len() implies earlier[i] != route by {
                        assert(routes[i] == earlier[i]);
                    }
                    assert(routes.last() == routes[routes.len() - 1]);
                }
            }
        }
    }
}

/// Cascade completeness for one route: once its cascade has run, the route is
/// gone and so is every point of interest that belonged to it; every other
/// route, every other point of interest and every plan is as before.
pub proof fn lemma_route_cascade_complete(tables: Tables, route: Seq<char>)
    ensures
        !after_all(tables, route_cascade(route)).routes.contains_key(route),
        forall|poi: Seq<char>|
            !#[trigger] is_poi_of(after_all(tables, route_cascade(route)), poi, route),
        after_all(tables, route_cascade(route)).plans == tables.plans,
        forall|other: Seq<char>|
            other != route && #[trigger] tables.routes.contains_key(other) ==> is_route_of(
                after_all(tables, route_cascade(route)),
                other,
                tables.routes[other],
            ),
        forall|poi: Seq<char>| #[trigger]
            tables.pois.contains_key(poi) && tables.pois[poi] != route ==> is_poi_of(
                after_all(tables, route_cascade(route)),
                poi,
                tables.pois[poi],
            ),
{
    let steps = route_cascade(route);
    assert(steps.drop_last() =~= seq![DeletionView::PoisOfRoute(route)]);
    let first = steps.drop_last();
    assert(first.drop_last() =~= Seq::<DeletionView>::empty());
    assert(after_all(tables, first.drop_last()) == tables);
    assert(first.last() == DeletionView::PoisOfRoute(route));
    assert(after_all(tables, first) == after(tables, DeletionView::PoisOfRoute(route)));
    assert(steps.last() == DeletionView::Route(route));
    assert(after_all(tables, steps) == after(
        after(tables, DeletionView::PoisOfRoute(route)),
        DeletionView::Route(route),
    ));
}

/// Cascade completeness for the routes of a plan: once the cascade has run
/// over all routes that the plan had, no route of the plan is left and no
/// point of interest of any such route; the plans, the routes of other plans
/// and the points of interest of other routes are as before.
pub proof fn lemma_routes_cascade_complete(tables: Tables, plan: Seq<char>, routes: Seq<Seq<char>>)
    requires
        forall|route: Seq<char>| #[trigger]
            is_route_of(tables, route, plan) ==> routes.contains(route),
    ensures
        forall|route: Seq<char>|
            !#[trigger] is_route_of(after_all(tables, routes_cascade(plan, routes)), route, plan),
        forall|poi: Seq<char>| #[trigger]
            after_all(tables, routes_cascade(plan, routes)).pois.contains_key(poi)
                ==> tables.pois.contains_key(poi) && !is_route_of(
                tables,
                tables.pois[poi],
                plan,
            ),
        after_all(tables, routes_cascade(plan, routes)).plans == tables.plans,
        forall|route: Seq<char>| #[trigger]
            tables.routes.contains_key(route) && tables.routes[route] != plan ==> is_route_of(
                after_all(tables, routes_cascade(plan, routes)),
                route,
                tables.routes[route],
            ),
        forall|poi: Seq<char>| #[trigger]
            tables.pois.contains_key(poi) && !routes.contains(tables.pois[poi]) ==> is_poi_of(
                after_all(tables, routes_cascade(plan, routes)),
                poi,
                tables.pois[poi],
            ),
{
    let steps = routes_cascade(plan, routes);
    lemma_pois_of_routes(tables, routes);
    assert(steps.drop_last() =~= pois_of_routes(routes));
    let before = after_all(tables, pois_of_routes(routes));
    let end = after_all(tables, steps);
    assert(end == after(before, DeletionView::RoutesOfPlan(plan)));
    assert forall|poi: Seq<char>| #[trigger] end.pois.contains_key(poi) implies tables.pois.contains_key(
        poi,
    ) && !is_route_of(tables, tables.pois[poi], plan) by {
        assert(before.pois.contains_key(poi));
    }
    assert forall|poi: Seq<char>| #[trigger]
        tables.pois.contains_key(poi) && !routes.contains(tables.pois[poi]) implies is_poi_of(
        end,
        poi,
        tables.pois[poi],
    ) by {
        assert(before.pois.contains_key(poi));
    }
}

/// Cascade completeness for a plan: once the cascade has run over all routes
/// that the plan had, the plan is gone, no route of the plan is left, and no
/// point of interest of any such route; other plans, their routes and the
/// points of interest of other routes are as before.
pub proof fn lemma_plan_cascade_complete(tables: Tables, plan: Seq<char>, routes: Seq<Seq<char>>)
    requires
        forall|route: Seq<char>| #[trigger]
            is_route_of(tables, route, plan) ==> routes.contains(route),
    ensures
        !after_all(tables, plan_cascade(plan, routes)).plans.contains(plan),
        forall|route: Seq<char>|
            !#[trigger] is_route_of(after_all(tables, plan_cascade(plan, routes)), route, plan),
        forall|poi: Seq<char>| #[trigger]
            after_all(tables, plan_cascade(plan, routes)).pois.contains_key(poi)
                ==> tables.pois.contains_key(poi) && !is_route_of(
                tables,
                tables.pois[poi],
                plan,
            ),
        forall|other: Seq<char>|
            other != plan && #[trigger] tables.plans.contains(other) ==> after_all(
                tables,
                plan_cascade(plan, routes),
            ).plans.contains(other),
        forall|route: Seq<char>| #[trigger]
            tables.routes.contains_key(route) && tables.routes[route] != plan ==> is_route_of(
                after_all(tables, plan_cascade(plan, routes)),
                route,
                tables.routes[route],
            ),
        forall|poi: Seq<char>| #[trigger]
            tables.pois.contains_key(poi) && !routes.contains(tables.pois[poi]) ==> is_poi_of(
                after_all(tables, plan_cascade(plan, routes)),
                poi,
                tables.pois[poi],
            ),
{
    let steps = plan_cascade(plan, routes);
    lemma_routes_cascade_complete(tables, plan, routes);
    assert(steps.drop_last() =~= routes_cascade(plan, routes));
    let before = after_all(tables, routes_cascade(plan, routes));
    let end = after_all(tables, steps);
    assert(end == after(before, DeletionView::Plan(plan)));
    assert forall|route: Seq<char>| !#[trigger] is_route_of(end, route, plan) by {
        assert(!is_route_of(before, route, plan));
    }
}

/// The statement that makes a deletion.
pub open spec fn deletion_statement(deletion: DeletionView) -> StatementView {
    match deletion {
        DeletionView::PoisOfRoute(id) => StatementView {
            sql: DELETE_POIS_OF_ROUTE@,
            params: seq![SqlValueView::Text(id)],
        },
        DeletionView::Route(id) => StatementView {
            sql: DELETE_ROUTE@,
            params: seq![SqlValueView::Text(id)],
        },
        DeletionView::RoutesOfPlan(id) => StatementView {
            sql: DELETE_ROUTES_OF_PLAN@,
            params: seq![SqlValueView::Text(id)],
        },
        DeletionView::Plan(id) => StatementView {
            sql: DELETE_PLAN@,
            params: seq![SqlValueView::Text(id)],
        },
    }
}

impl Deletion {
    /// The text of the statement that makes this deletion.
    pub fn sql(&self) -> (sql: &'static str)
        ensures
            sql@ == match self {
                Deletion::PoisOfRoute(_) => DELETE_POIS_OF_ROUTE@,
                Deletion::Route(_) => DELETE_ROUTE@,
                Deletion::RoutesOfPlan(_) => DELETE_ROUTES_OF_PLAN@,
                Deletion::Plan(_) => DELETE_PLAN@,
            },
    {
        match self {
            Deletion::PoisOfRoute(_) => DELETE_POIS_OF_ROUTE,
            Deletion::Route(_) => DELETE_ROUTE,
            Deletion::RoutesOfPlan(_) => DELETE_ROUTES_OF_PLAN,
            Deletion::Plan(_) => DELETE_PLAN,
        }
    }

    /// The identifier that selects what this deletion removes.
    pub fn key(&self) -> (key: &String)
        ensures
            key@ == match self@ {
                DeletionView::PoisOfRoute(id) => id,
                DeletionView::Route(id) => id,
                DeletionView::RoutesOfPlan(id) => id,
                DeletionView::Plan(id) => id,
            },
    {
        match self {
            Deletion::PoisOfRoute(id) => id,
            Deletion::Route(id) => id,
            Deletion::RoutesOfPlan(id) => id,
            Deletion::Plan(id) => id,
        }
    }

    /// The statement that makes this deletion: its text, with the identifier
    /// as the one parameter.
    pub fn statement(&self) -> (statement: Statement)
        ensures
            statement@ == deletion_statement(self@),
    {
        Statement::keyed(self.sql(), self.key().as_str())
    }

    /// Makes this deletion in the store: runs its statement once; `Ok` holds
    /// how many records went.
    pub fn execute(&self, store: &mut Store) -> (res: Result<usize, StoreError>)
        ensures
            final(store).trail() == old(store).trail().push(
                Exchange::Ran { ran: deletion_statement(self@), changed: outcome(res) },
            ),
            ran_once(old(store).trail(), final(store).trail(), deletion_statement(self@)),
            res matches Err(e) ==> e is Engine,
    {
        store.run(&self.statement())
    }
}

/// True where the exchanges after `before` began a transaction and made the
/// first `n` of the deletions in their order, all with success; nothing else
/// was exchanged.
pub open spec fn underway(
    before: Seq<Exchange>,
    after: Seq<Exchange>,
    deletions: Seq<DeletionView>,
    n: int,
) -> bool {
    &&& continues(before, after)
    &&& 0 <= n <= deletions.len()
    &&& after.len() == before.len() + 1 + n
    &&& nth_since(before, after, 0) is Ran
    &&& nth_since(before, after, 0)->ran == plain(BEGIN@)
    &&& nth_since(before, after, 0)->changed is Ok
    &&& forall|i: int|
        0 <= i < n ==> {
            let exchange = #[trigger] nth_since(before, after, 1 + i);
            &&& exchange is Ran
            &&& exchange->ran == deletion_statement(deletions[i])
            &&& exchange->changed is Ok
        }
}

/// True where the exchanges after `before` are a committed cascade: the
/// transaction was begun, every deletion was made in order with success, and
/// the transaction was committed; nothing else was exchanged.
pub open spec fn committed(
    before: Seq<Exchange>,
    after: Seq<Exchange>,
    deletions: Seq<DeletionView>,
) -> bool {
    &&& after.len() == before.len() + deletions.len() + 2
    &&& underway(before, after.drop_last(), deletions, deletions.len() as int)
    &&& after.last() is Ran
    &&& after.last()->ran == plain(COMMIT@)
    &&& after.last()->changed is Ok
}

/// How many records the deletion at position `i` of a cascade removed, where it succeeded.
pub open spec fn removed_by(before: Seq<Exchange>, after: Seq<Exchange>, i: int) -> usize {
    nth_since(before, after, 1 + i)->changed->Ok_0
}

/// True where the exchanges after `before` are an abandoned cascade that
/// failed with `e`: either the store refused to begin, and nothing more was
/// exchanged; or the transaction was begun, some of the deletions were made
/// in order with success, the next statement, a deletion or the commit, was
/// refused with `e`, nothing after it was attempted, and the transaction was
/// rolled back.
pub open spec fn abandoned(
    before: Seq<Exchange>,
    after: Seq<Exchange>,
    deletions: Seq<DeletionView>,
    e: StoreErrorView,
) -> bool {
    ||| after == before.push(Exchange::Ran { ran: plain(BEGIN@), changed: Err(e) })
    ||| exists|n: int|
        {
            &&& after.len() == before.len() + n + 3
            &&& #[trigger] underway(before, after.take(before.len() + 1 + n), deletions, n)
            &&& nth_since(before, after, 1 + n) == (Exchange::Ran {
                ran: if n < deletions.len() {
                    deletion_statement(deletions[n])
                } else {
                    plain(COMMIT@)
                },
                changed: Err(e),
            })
            &&& after.last() is Ran
            &&& after.last()->ran == plain(ROLLBACK@)
        }
}

/// Makes the deletions in their order inside one transaction. `Ok` holds, for
/// each deletion, how many records went, and the transaction is committed.
/// Where the store refuses to begin, refuses a deletion or refuses to commit,
/// nothing after it is attempted, the transaction is rolled back and the
/// store's error is returned.
pub fn run_atomically(store: &mut Store, deletions: &Vec<Deletion>) -> (res: Result<
    Vec<usize>,
    StoreError,
>)
    ensures
        continues(old(store).trail(), final(store).trail()),
        res matches Ok(counts) ==> {
            &&& committed(old(store).trail(), final(store).trail(), deletions.deep_view())
            &&& counts.len() == deletions.len()
            &&& forall|i: int|
                0 <= i < counts.len() ==> #[trigger] counts[i] == removed_by(
                    old(store).trail(),
                    final(store).trail(),
                    i,
                )
        },
        res matches Err(e) ==> e is Engine && abandoned(
            old(store).trail(),
            final(store).trail(),
            deletions.deep_view(),
            e@,
        ),
{
    let ghost before = store.trail();
    let ghost steps = deletions.deep_view();
    match store.begin() {
        Ok(_) => {},
        Err(e) => {
            proof {
                lemma_one_more_continues(before, store.trail());
                assert(store.trail() =~= before.push(
                    Exchange::Ran { ran: plain(BEGIN@), changed: Err(e@) },
                ));
            }
            return Err(e);
        },
    }
    proof {
        lemma_one_more_continues(before, store.trail());
    }
    let mut counts: Vec<usize> = Vec::new();
    let mut i: usize = 0;
    while i < deletions.len()
        invariant
            i <= deletions.len(),
            steps == deletions.deep_view(),
            before == old(store).trail(),
            counts.len() == i,
            underway(before, store.trail(), steps, i as int),
            forall|k: int|
                0 <= k < i ==> #[trigger] counts[k] == removed_by(before, store.trail(), k),
        decreases deletions.len() - i,
    {
        let ghost so_far = store.trail();
        let ghost earlier = counts@;
        match deletions[i].execute(store) {
            Ok(count) => {
                counts.push(count);
                proof {
                    let after = store.trail();
                    lemma_one_more_continues(so_far, after);
                    lemma_continues_twice(before, so_far, after);
                    assert forall|k: int| 0 <= k < i + 1 implies {
                        let exchange = #[trigger] nth_since(before, after, 1 + k);
                        &&& exchange is Ran
                        &&& exchange->ran == deletion_statement(steps[k])
                        &&& exchange->changed is Ok
                    } by {
                        if k < i {
                            assert(nth_since(before, after, 1 + k) == nth_since(
                                before,
                                so_far,
                                1 + k,
                            ));
                        } else {
                            assert(nth_since(before, after, 1 + k) == after.last());
                        }
                    }
                    assert forall|k: int| 0 <= k < i + 1 implies #[trigger] counts[k]
                        == removed_by(before, after, k) by {
                        if k < i {
                            assert(nth_since(before, after, 1 + k) == nth_since(
                                before,
                                so_far,
                                1 + k,
                            ));
                            assert(counts[k] == earlier[k]);
                        } else {
                            assert(nth_since(before, after, 1 + k) == after.last());
                        }
                    }
                    assert(nth_since(before, after, 0) == nth_since(before, so_far, 0));
                }
            },
            Err(e) => {
                let ghost refused = store.trail();
                store.rollback();
                proof {
                    let after = store.trail();
                    lemma_one_more_continues(so_far, refused);
                    lemma_one_more_continues(refused, after);
                    lemma_continues_twice(before, so_far, refused);
                    lemma_continues_twice(before, refused, after);
                    let n = i as int;
                    assert(after.take(before.len() + 1 + n) =~= so_far);
                    assert(nth_since(before, after, 1 + n) == refused.last());
                    assert(underway(before, after.take(before.len() + 1 + n), steps, n));
                }
                return Err(e);
            },
        }
        i = i + 1;
    }
    let ghost made = store.trail();
    match store.commit() {
        Ok(_) => {
            proof {
                let after = store.trail();
                lemma_one_more_continues(made, after);
                lemma_continues_twice(before, made, after);
                assert(after.drop_last() == made);
                assert forall|k: int| 0 <= k < counts.len() implies #[trigger] counts[k]
                    == removed_by(before, after, k) by {
                    assert(nth_since(before, after, 1 + k) == nth_since(before, made, 1 + k));
                }
            }
            Ok(counts)
        },
        Err(e) => {
            let ghost refused = store.trail();
            store.rollback();
            proof {
                let after = store.trail();
                lemma_one_more_continues(made, refused);
                lemma_one_more_continues(refused, after);
                lemma_continues_twice(before, made, refused);
                lemma_continues_twice(before, refused, after);
                let n = steps.len() as int;
                assert(after.take(before.len() + 1 + n) =~= made);
                assert(nth_since(before, after, 1 + n) == refused.last());
                assert(underway(before, after.take(before.len() + 1 + n), steps, n));
            }
            Err(e)
        },
    }
}

} // verus!
