//! Route options: the generated routes of a travel plan.

use crate::db::datetime::instant_at;
use crate::db::datetime::instant_at_spec;
use crate::db::datetime::now;
use crate::db::datetime::to_sql_spec;
use crate::db::datetime::SqlDateTime;
use crate::db::statement::optional_integer;
use crate::db::statement::optional_integer_at;
use crate::db::statement::optional_integer_at_spec;
use crate::db::statement::asked_once;
use crate::db::statement::continues;
use crate::db::statement::is_read_failure;
use crate::db::statement::keyed;
use crate::db::statement::last_changed;
use crate::db::statement::last_rows;
use crate::db::statement::lemma_continues_itself;
use crate::db::statement::lemma_one_more_continues;
use crate::db::statement::nth_since;
use crate::db::statement::ran_once;
use crate::db::statement::refused_once;
use crate::db::statement::removed;
use crate::db::statement::Exchange;
use crate::db::statement::Rows;
use crate::db::statement::Store;
use crate::db::statement::optional_text;
use crate::db::statement::optional_text_at;
use crate::db::statement::optional_text_at_spec;
use crate::db::statement::optional_integer_cell;
use crate::db::statement::optional_text_cell;
use crate::db::statement::text;
use crate::db::statement::text_at;
use crate::db::statement::text_at_spec;
use crate::db::statement::SqlValue;
use crate::db::statement::SqlValueView;
use crate::db::statement::Statement;
use crate::db::statement::StatementView;
use crate::db::statement::StoreError;
use crate::db::statement::StoreErrorView;
use crate::random::draw;
use crate::random::is_coordinate;
use crate::random::new_id;
use crate::random::random_coordinate;
use crate::text::decimal;
use crate::text::decimal_spec;
use crate::text::join;
use crate::text::join_spec;
use crate::text::views;
use crate::text::copy_optional;
use crate::text::replaced;
use crate::text::replaced_optional;
use crate::views::outcome;
use vstd::prelude::*;

verus! {

pub const INSERT_ROUTE: &'static str =
    "INSERT INTO route_options (id, travel_plan_id, name, description, distance, duration, start_coordinates, end_coordinates, waypoints, created_at) VALUES (?1, ?2, ?3, ?4, ?5, ?6, ?7, ?8, ?9, ?10)";

pub const SELECT_ROUTE_BY_ID: &'static str =
    "SELECT id, travel_plan_id, name, description, distance, duration, start_coordinates, end_coordinates, waypoints, created_at FROM route_options WHERE id = ?1";

pub const SELECT_ROUTES_BY_PLAN: &'static str =
    "SELECT id, travel_plan_id, name, description, distance, duration, start_coordinates, end_coordinates, waypoints, created_at FROM route_options WHERE travel_plan_id = ?1";

pub const UPDATE_ROUTE: &'static str =
    "UPDATE route_options SET name = ?1, description = ?2, distance = ?3, duration = ?4, waypoints = ?5 WHERE id = ?6";

pub const DELETE_ROUTE: &'static str = "DELETE FROM route_options WHERE id = ?1";

pub const SELECT_PLAN_LOCATIONS: &'static str =
    "SELECT start_location, end_location FROM travel_plans WHERE id = ?1";

/// The shortest generated route, in metres.
pub const MIN_DISTANCE: i64 = 10_000;

/// The longest generated route, in metres.
pub const MAX_DISTANCE: i64 = 1_000_000;

/// The shortest generated duration, in minutes.
pub const MIN_DURATION: i64 = 30;

/// The longest generated duration, in minutes.
pub const MAX_DURATION: i64 = 720;

/// The largest number of waypoints of a generated route; the smallest is one.
pub const MAX_WAYPOINTS: i64 = 4;

/// A route option of a travel plan. `travel_plan_id` names the plan and never
/// changes. The distance is held in metres, the duration in minutes, the
/// waypoints as positions separated by `;`.
#[derive(Debug, Clone, PartialEq, Eq)]
pub struct RouteOption {
    pub id: String,
    pub travel_plan_id: String,
    pub name: String,
    pub description: Option<String>,
    pub distance: Option<i64>,
    pub duration: Option<i64>,
    pub start_coordinates: String,
    pub end_coordinates: String,
    pub waypoints: Option<String>,
    pub created_at: SqlDateTime,
}

/// The mathematical value of a [`RouteOption`].
pub struct RouteOptionView {
    pub id: Seq<char>,
    pub travel_plan_id: Seq<char>,
    pub name: Seq<char>,
    pub description: Option<Seq<char>>,
    pub distance: Option<i64>,
    pub duration: Option<i64>,
    pub start_coordinates: Seq<char>,
    pub end_coordinates: Seq<char>,
    pub waypoints: Option<Seq<char>>,
    pub created_at: SqlDateTime,
}

impl DeepView for RouteOption {
    type V = RouteOptionView;

    open spec fn deep_view(&self) -> RouteOptionView {
        RouteOptionView {
            id: self.id@,
            travel_plan_id: self.travel_plan_id@,
            name: self.name@,
            description: self.description.deep_view(),
            distance: self.distance,
            duration: self.duration,
            start_coordinates: self.start_coordinates@,
            end_coordinates: self.end_coordinates@,
            waypoints: self.waypoints.deep_view(),
            created_at: self.created_at,
        }
    }
}

impl View for RouteOption {
    type V = RouteOptionView;

    open spec fn view(&self) -> RouteOptionView {
        self.deep_view()
    }
}

/// The fields of a route option that is to be stored.
#[derive(Debug, Clone, PartialEq, Eq)]
pub struct NewRouteOption {
    pub travel_plan_id: String,
    pub name: String,
    pub description: Option<String>,
    pub distance: Option<i64>,
    pub duration: Option<i64>,
    pub start_coordinates: String,
    pub end_coordinates: String,
    pub waypoints: Option<String>,
}

/// The mathematical value of a [`NewRouteOption`].
pub struct NewRouteOptionView {
    pub travel_plan_id: Seq<char>,
    pub name: Seq<char>,
    pub description: Option<Seq<char>>,
    pub distance: Option<i64>,
    pub duration: Option<i64>,
    pub start_coordinates: Seq<char>,
    pub end_coordinates: Seq<char>,
    pub waypoints: Option<Seq<char>>,
}

impl DeepView for NewRouteOption {
    type V = NewRouteOptionView;

    open spec fn deep_view(&self) -> NewRouteOptionView {
        NewRouteOptionView {
            travel_plan_id: self.travel_plan_id@,
            name: self.name@,
            description: self.description.deep_view(),
            distance: self.distance,
            duration: self.duration,
            start_coordinates: self.start_coordinates@,
            end_coordinates: self.end_coordinates@,
            waypoints: self.waypoints.deep_view(),
        }
    }
}

impl View for NewRouteOption {
    type V = NewRouteOptionView;

    open spec fn view(&self) -> NewRouteOptionView {
        self.deep_view()
    }
}

/// A partial update of a route option.
#[derive(Debug, Clone, PartialEq, Eq)]
pub struct UpdateRouteOption {
    pub name: Option<String>,
    pub description: Option<String>,
    pub distance: Option<i64>,
    pub duration: Option<i64>,
    pub waypoints: Option<String>,
}

/// The mathematical value of an [`UpdateRouteOption`].
pub struct UpdateRouteOptionView {
    pub name: Option<Seq<char>>,
    pub description: Option<Seq<char>>,
    pub distance: Option<i64>,
    pub duration: Option<i64>,
    pub waypoints: Option<Seq<char>>,
}

impl DeepView for UpdateRouteOption {
    type V = UpdateRouteOptionView;

    open spec fn deep_view(&self) -> UpdateRouteOptionView {
        UpdateRouteOptionView {
            name: self.name.deep_view(),
            description: self.description.deep_view(),
            distance: self.distance,
            duration: self.duration,
            waypoints: self.waypoints.deep_view(),
        }
    }
}

impl View for UpdateRouteOption {
    type V = UpdateRouteOptionView;

    open spec fn view(&self) -> UpdateRouteOptionView {
        self.deep_view()
    }
}

/// The route that a row of ten cells holds.
pub open spec fn route_of_row(row: Seq<SqlValueView>) -> Result<RouteOptionView, StoreErrorView> {
    match text_at_spec(row, 0) {
        Err(e) => Err(e),
        Ok(id) => match text_at_spec(row, 1) {
            Err(e) => Err(e),
            Ok(travel_plan_id) => match text_at_spec(row, 2) {
                Err(e) => Err(e),
                Ok(name) => match optional_text_at_spec(row, 3) {
                    Err(e) => Err(e),
                    Ok(description) => match optional_integer_at_spec(row, 4) {
                        Err(e) => Err(e),
                        Ok(distance) => match optional_integer_at_spec(row, 5) {
                            Err(e) => Err(e),
                            Ok(duration) => match text_at_spec(row, 6) {
                                Err(e) => Err(e),
                                Ok(start_coordinates) => match text_at_spec(row, 7) {
                                    Err(e) => Err(e),
                                    Ok(end_coordinates) => match optional_text_at_spec(row, 8) {
                                        Err(e) => Err(e),
                                        Ok(waypoints) => match instant_at_spec(row, 9) {
                                            Err(e) => Err(e),
                                            Ok(created_at) => Ok(
                                                RouteOptionView {
                                                    id,
                                                    travel_plan_id,
                                                    name,
                                                    description,
                                                    distance,
                                                    duration,
                                                    start_coordinates,
                                                    end_coordinates,
                                                    waypoints,
                                                    created_at,
                                                },
                                            ),
                                        },
                                    },
                                },
                            },
                        },
                    },
                },
            },
        },
    }
}

/// The route that the first of some rows holds; no route where there is no row.
pub open spec fn first_route(rows: Seq<Seq<SqlValueView>>) -> Result<
    Option<RouteOptionView>,
    StoreErrorView,
> {
    if rows.len() == 0 {
        Ok(None)
    } else {
        match route_of_row(rows[0]) {
            Ok(route) => Ok(Some(route)),
            Err(e) => Err(e),
        }
    }
}

/// The routes that some rows hold, in their order: the error of the first row
/// that holds none, where there is such a row.
pub open spec fn routes_of_rows(rows: Seq<Seq<SqlValueView>>) -> Result<
    Seq<RouteOptionView>,
    StoreErrorView,
>
    decreases rows.len(),
{
    if rows.len() == 0 {
        Ok(Seq::empty())
    } else {
        match routes_of_rows(rows.drop_last()) {
            Err(e) => Err(e),
            Ok(routes) => match route_of_row(rows.last()) {
                Err(e) => Err(e),
                Ok(route) => Ok(routes.push(route)),
            },
        }
    }
}

/// The route that a lookup found, given the rows that the store gave.
pub open spec fn found_route(rows: Rows) -> Result<Option<RouteOptionView>, StoreErrorView> {
    match rows {
        Ok(rows) => first_route(rows),
        Err(e) => Err(e),
    }
}

/// The routes that a listing found, given the rows that the store gave.
pub open spec fn listed_routes(rows: Rows) -> Result<Seq<RouteOptionView>, StoreErrorView> {
    match rows {
        Ok(rows) => routes_of_rows(rows),
        Err(e) => Err(e),
    }
}

/// True where the exchanges after `before` stored these routes and did
/// nothing else: one insertion for each, in their order, each with success.
pub open spec fn stored_routes(
    before: Seq<Exchange>,
    after: Seq<Exchange>,
    routes: Seq<RouteOptionView>,
) -> bool {
    &&& continues(before, after)
    &&& after.len() == before.len() + routes.len()
    &&& forall|i: int|
        0 <= i < routes.len() ==> {
            let exchange = #[trigger] after[before.len() + i];
            &&& exchange is Ran
            &&& route_insertion(routes[i]) == Ok::<StatementView, StoreErrorView>(exchange->ran)
            &&& exchange->changed is Ok
        }
}

/// True where the exchanges after `before` stored some routes and then met
/// the refusal of one more insertion, which ended the work.
pub open spec fn stored_routes_until_refused(
    before: Seq<Exchange>,
    after: Seq<Exchange>,
    e: StoreErrorView,
) -> bool {
    after.len() > before.len() && refused_once(after.drop_last(), after, INSERT_ROUTE@, e)
        && exists|routes: Seq<RouteOptionView>| #[trigger]
        stored_routes(before, after.drop_last(), routes)
}

/// The route that storing `fields` under `id` at the instant `at` makes.
pub open spec fn created_route(id: Seq<char>, fields: NewRouteOptionView, at: SqlDateTime) ->
    RouteOptionView {
    RouteOptionView {
        id,
        travel_plan_id: fields.travel_plan_id,
        name: fields.name,
        description: fields.description,
        distance: fields.distance,
        duration: fields.duration,
        start_coordinates: fields.start_coordinates,
        end_coordinates: fields.end_coordinates,
        waypoints: fields.waypoints,
        created_at: at,
    }
}

/// The route after a partial update: each present field of the update
/// replaces the route's; the identifier, the plan and the end points stay.
pub open spec fn updated_route(route: RouteOptionView, update: UpdateRouteOptionView) ->
    RouteOptionView {
    RouteOptionView {
        name: match update.name {
            Some(name) => name,
            None => route.name,
        },
        description: match update.description {
            Some(description) => Some(description),
            None => route.description,
        },
        distance: match update.distance {
            Some(distance) => Some(distance),
            None => route.distance,
        },
        duration: match update.duration {
            Some(duration) => Some(duration),
            None => route.duration,
        },
        waypoints: match update.waypoints {
            Some(waypoints) => Some(waypoints),
            None => route.waypoints,
        },
        ..route
    }
}

/// The statement that stores a new route: its ten fields in the order of the columns.
pub open spec fn route_insertion(route: RouteOptionView) -> Result<StatementView, StoreErrorView> {
    match to_sql_spec(route.created_at) {
        Err(e) => Err(e),
        Ok(created_at) => Ok(
            StatementView {
                sql: INSERT_ROUTE@,
                params: seq![
                    SqlValueView::Text(route.id),
                    SqlValueView::Text(route.travel_plan_id),
                    SqlValueView::Text(route.name),
                    optional_text_cell(route.description),
                    optional_integer_cell(route.distance),
                    optional_integer_cell(route.duration),
                    SqlValueView::Text(route.start_coordinates),
                    SqlValueView::Text(route.end_coordinates),
                    optional_text_cell(route.waypoints),
                    created_at,
                ],
            },
        ),
    }
}

/// The statement that stores the changeable fields of a route under its
/// identifier: name, description, distance, duration, waypoints.
pub open spec fn route_modification(route: RouteOptionView) -> StatementView {
    StatementView {
        sql: UPDATE_ROUTE@,
        params: seq![
            SqlValueView::Text(route.name),
            optional_text_cell(route.description),
            optional_integer_cell(route.distance),
            optional_integer_cell(route.duration),
            optional_text_cell(route.waypoints),
            SqlValueView::Text(route.id),
        ],
    }
}

/// The name of the route at position `index` of a batch.
pub open spec fn route_name(index: nat) -> Seq<char> {
    "Route Option "@ + decimal_spec(index + 1)
}

/// The description of the route at position `index` of a batch between two
/// places: one of three sentences, taken in turn.
pub open spec fn route_description(index: nat, start: Seq<char>, end: Seq<char>) -> Seq<char> {
    let opening = if index % 3 == 0 {
        "Scenic route from "@
    } else if index % 3 == 1 {
        "Fastest route from "@
    } else {
        "Alternative route from "@
    };
    opening + start + " to "@ + end
}

/// True of a text that joins between one and four positions with `;`.
pub open spec fn is_waypoint_list(text: Seq<char>) -> bool {
    exists|points: Seq<Seq<char>>|
        1 <= points.len() <= MAX_WAYPOINTS && (forall|k: int|
            0 <= k < points.len() ==> is_coordinate(#[trigger] points[k])) && text
            == #[trigger] join_spec(points, ";"@)
}

/// The fields of the route at position `index` of a batch, for the numbers drawn for it.
pub open spec fn synthesized(
    plan_id: Seq<char>,
    index: nat,
    start: Seq<char>,
    end: Seq<char>,
    start_coordinates: Seq<char>,
    end_coordinates: Seq<char>,
    distance: i64,
    duration: i64,
    waypoints: Seq<Seq<char>>,
) -> NewRouteOptionView {
    NewRouteOptionView {
        travel_plan_id: plan_id,
        name: route_name(index),
        description: Some(route_description(index, start, end)),
        distance: Some(distance),
        duration: Some(duration),
        start_coordinates,
        end_coordinates,
        waypoints: if waypoints.len() == 0 {
            None
        } else {
            Some(join_spec(waypoints, ";"@))
        },
    }
}

/// True of the fields of a route that the generator may make at position
/// `index` of a batch for a plan between two places, with the end points that
/// the batch shares.
pub open spec fn is_generated(
    fields: NewRouteOptionView,
    plan_id: Seq<char>,
    index: nat,
    start: Seq<char>,
    end: Seq<char>,
    start_coordinates: Seq<char>,
    end_coordinates: Seq<char>,
) -> bool {
    &&& fields.travel_plan_id == plan_id
    &&& fields.name == route_name(index)
    &&& fields.description == Some(route_description(index, start, end))
    &&& fields.distance matches Some(d) && MIN_DISTANCE <= d <= MAX_DISTANCE
    &&& fields.duration matches Some(m) && MIN_DURATION <= m <= MAX_DURATION
    &&& fields.start_coordinates == start_coordinates
    &&& fields.end_coordinates == end_coordinates
    &&& fields.waypoints matches Some(w) && is_waypoint_list(w)
}

/// The fields that a stored route was made of.
pub open spec fn fields_of(route: RouteOptionView) -> NewRouteOptionView {
    NewRouteOptionView {
        travel_plan_id: route.travel_plan_id,
        name: route.name,
        description: route.description,
        distance: route.distance,
        duration: route.duration,
        start_coordinates: route.start_coordinates,
        end_coordinates: route.end_coordinates,
        waypoints: route.waypoints,
    }
}

/// True of a batch that the generator may make for a plan between two places:
/// one pair of end points, both on the globe, shared by all its routes, and
/// each route generated for its position.
pub open spec fn is_generated_batch(
    routes: Seq<RouteOptionView>,
    plan_id: Seq<char>,
    start: Seq<char>,
    end: Seq<char>,
) -> bool {
    exists|start_coordinates: Seq<char>, end_coordinates: Seq<char>|
        #![trigger is_coordinate(start_coordinates), is_coordinate(end_coordinates)]
        is_coordinate(start_coordinates) && is_coordinate(end_coordinates) && forall|i: int|
            0 <= i < routes.len() ==> is_generated(
                fields_of(#[trigger] routes[i]),
                plan_id,
                i as nat,
                start,
                end,
                start_coordinates,
                end_coordinates,
            )
}

/// The two places of a plan that a row of two cells holds.
pub open spec fn places_of_row(row: Seq<SqlValueView>) -> Result<
    (Seq<char>, Seq<char>),
    StoreErrorView,
> {
    match text_at_spec(row, 0) {
        Err(e) => Err(e),
        Ok(start) => match text_at_spec(row, 1) {
            Err(e) => Err(e),
            Ok(end) => Ok((start, end)),
        },
    }
}

/// True of what generating routes for a plan that is looked up returns, given
/// the exchanges that it made. The first exchange asks for the two places of
/// the plan. Where that fails, its failure is returned; where it gives no
/// row, `Ok` holds no route; where the first row cannot be read, that is the
/// failure; and in these three cases nothing more is exchanged. Else `Ok`
/// holds a batch of `count` routes generated between the places of that row,
/// each stored by one insertion after the lookup, and a failure is the
/// refusal by the store of one of these insertions, which ended the work.
pub open spec fn is_route_generation(
    before: Seq<Exchange>,
    after: Seq<Exchange>,
    plan_id: Seq<char>,
    count: nat,
    res: Result<Seq<RouteOptionView>, StoreErrorView>,
) -> bool {
    &&& continues(before, after)
    &&& after.len() > before.len()
    &&& nth_since(before, after, 0) is Fetched
    &&& nth_since(before, after, 0)->asked == keyed(SELECT_PLAN_LOCATIONS@, plan_id)
    &&& match nth_since(before, after, 0)->rows {
        Err(e) => after.len() == before.len() + 1 && res == Err::<
            Seq<RouteOptionView>,
            StoreErrorView,
        >(e),
        Ok(rows) => if rows.len() == 0 {
            after.len() == before.len() + 1 && res == Ok::<
                Seq<RouteOptionView>,
                StoreErrorView,
            >(Seq::empty())
        } else {
            match places_of_row(rows[0]) {
                Err(e) => after.len() == before.len() + 1 && res == Err::<
                    Seq<RouteOptionView>,
                    StoreErrorView,
                >(e),
                Ok((start, end)) => match res {
                    Ok(routes) => {
                        &&& routes.len() == count
                        &&& is_generated_batch(routes, plan_id, start, end)
                        &&& stored_routes(after.take(before.len() as int + 1), after, routes)
                    },
                    Err(e) => e is Engine && stored_routes_until_refused(
                        after.take(before.len() as int + 1),
                        after,
                        e,
                    ),
                },
            }
        },
    }
}

fn replaced_number(current: Option<i64>, replacement: Option<i64>) -> (value: Option<i64>)
    ensures
        value == match replacement {
            Some(r) => Some(r),
            None => current,
        },
{
    match replacement {
        Some(r) => Some(r),
        None => current,
    }
}

/// Once a prefix of the rows fails, every longer prefix fails with the same error.
proof fn lemma_routes_error_stays(rows: Seq<Seq<SqlValueView>>, n: int)
    requires
        0 <= n <= rows.len(),
        routes_of_rows(rows.take(n)) is Err,
    ensures
        routes_of_rows(rows) == routes_of_rows(rows.take(n)),
    decreases rows.len() - n,
{
    if n == rows.len() {
        assert(rows.take(n) =~= rows);
    } else {
        assert(rows.take(n + 1).drop_last() =~= rows.take(n));
        lemma_routes_error_stays(rows, n + 1);
    }
}

impl NewRouteOption {
    /// The fields of the route at position `index` of a batch, for the numbers drawn for it.
    pub fn synthesize(
        plan_id: &str,
        index: usize,
        start: &str,
        end: &str,
        start_coordinates: &str,
        end_coordinates: &str,
        distance: i64,
        duration: i64,
        waypoints: &Vec<String>,
    ) -> (fields: NewRouteOption)
        requires
            index < usize::MAX,
        ensures
            fields@ == synthesized(
                plan_id@,
                index as nat,
                start@,
                end@,
                start_coordinates@,
                end_coordinates@,
                distance,
                duration,
                views(waypoints@),
            ),
    {
        let mut name = String::from_str("Route Option ");
        let number = decimal((index + 1) as u64);
        name.append(number.as_str());
        let opening = if index % 3 == 0 {
            "Scenic route from "
        } else if index % 3 == 1 {
            "Fastest route from "
        } else {
            "Alternative route from "
        };
        let mut description = String::from_str(opening);
        description.append(start);
        description.append(" to ");
        description.append(end);
        let waypoints_text = if waypoints.len() == 0 {
            None
        } else {
            Some(join(waypoints, ";"))
        };
        NewRouteOption {
            travel_plan_id: String::from_str(plan_id),
            name,
            description: Some(description),
            distance: Some(distance),
            duration: Some(duration),
            start_coordinates: String::from_str(start_coordinates),
            end_coordinates: String::from_str(end_coordinates),
            waypoints: waypoints_text,
        }
    }
}

impl RouteOption {
    /// Reads a route from a row.
    pub fn from_row(row: &Vec<SqlValue>) -> (res: Result<RouteOption, StoreError>)
        ensures
            outcome(res) == route_of_row(row.deep_view()),
            res matches Err(e) ==> e is MissingColumn || e is InvalidColumnType,
    {
        let id = text_at(row, 0)?;
        let travel_plan_id = text_at(row, 1)?;
        let name = text_at(row, 2)?;
        let description = optional_text_at(row, 3)?;
        let distance = optional_integer_at(row, 4)?;
        let duration = optional_integer_at(row, 5)?;
        let start_coordinates = text_at(row, 6)?;
        let end_coordinates = text_at(row, 7)?;
        let waypoints = optional_text_at(row, 8)?;
        let created_at = instant_at(row, 9)?;
        Ok(
            RouteOption {
                id,
                travel_plan_id,
                name,
                description,
                distance,
                duration,
                start_coordinates,
                end_coordinates,
                waypoints,
                created_at,
            },
        )
    }

    /// Reads the route of the first row, if there is a row.
    pub fn first(rows: &Vec<Vec<SqlValue>>) -> (res: Result<Option<RouteOption>, StoreError>)
        ensures
            outcome(res) == first_route(rows.deep_view()),
    {
        if rows.len() == 0 {
            Ok(None)
        } else {
            match RouteOption::from_row(&rows[0]) {
                Ok(route) => Ok(Some(route)),
                Err(e) => Err(e),
            }
        }
    }

    /// Reads the routes of all rows, in their order.
    pub fn all(rows: &Vec<Vec<SqlValue>>) -> (res: Result<Vec<RouteOption>, StoreError>)
        ensures
            outcome(res) == routes_of_rows(rows.deep_view()),
            res matches Err(e) ==> e is MissingColumn || e is InvalidColumnType,
    {
        let mut routes: Vec<RouteOption> = Vec::new();
        let mut i: usize = 0;
        assert(rows.deep_view().take(0) =~= Seq::<Seq<SqlValueView>>::empty());
        assert(routes.deep_view() =~= Seq::<RouteOptionView>::empty());
        while i < rows.len()
            invariant
                i <= rows.len(),
                routes_of_rows(rows.deep_view().take(i as int)) == Ok::<
                    Seq<RouteOptionView>,
                    StoreErrorView,
                >(routes.deep_view()),
            decreases rows.len() - i,
        {
            let ghost before = rows.deep_view().take(i as int);
            let ghost after = rows.deep_view().take(i + 1);
            let ghost all = rows.deep_view();
            assert(after.drop_last() =~= before);
            assert(after.last() == rows[i as int].deep_view());
            match RouteOption::from_row(&rows[i]) {
                Ok(route) => {
                    let ghost earlier = routes.deep_view();
                    let ghost added = route.deep_view();
                    routes.push(route);
                    assert(routes.deep_view() =~= earlier.push(added));
                },
                Err(e) => {
                    proof {
                        lemma_routes_error_stays(all, i + 1);
                    }
                    return Err(e);
                },
            }
            i = i + 1;
        }
        assert(rows.deep_view().take(rows.len() as int) =~= rows.deep_view());
        Ok(routes)
    }

    /// A copy of this route.
    pub fn copy(&self) -> (route: RouteOption)
        ensures
            route@ == self@,
    {
        RouteOption {
            id: self.id.clone(),
            travel_plan_id: self.travel_plan_id.clone(),
            name: self.name.clone(),
            description: copy_optional(&self.description),
            distance: self.distance,
            duration: self.duration,
            start_coordinates: self.start_coordinates.clone(),
            end_coordinates: self.end_coordinates.clone(),
            waypoints: copy_optional(&self.waypoints),
            created_at: self.created_at,
        }
    }

    /// The route that `fields` make under `id` at the instant `at`.
    pub fn build(id: String, fields: &NewRouteOption, at: SqlDateTime) -> (route: RouteOption)
        ensures
            route@ == created_route(id@, fields@, at),
    {
        RouteOption {
            id,
            travel_plan_id: fields.travel_plan_id.clone(),
            name: fields.name.clone(),
            description: copy_optional(&fields.description),
            distance: fields.distance,
            duration: fields.duration,
            start_coordinates: fields.start_coordinates.clone(),
            end_coordinates: fields.end_coordinates.clone(),
            waypoints: copy_optional(&fields.waypoints),
            created_at: at,
        }
    }

    /// This route after the partial update `update`.
    pub fn updated(&self, update: &UpdateRouteOption) -> (route: RouteOption)
        ensures
            route@ == updated_route(self@, update@),
    {
        RouteOption {
            id: self.id.clone(),
            travel_plan_id: self.travel_plan_id.clone(),
            name: replaced(&self.name, &update.name),
            description: replaced_optional(&self.description, &update.description),
            distance: replaced_number(self.distance, update.distance),
            duration: replaced_number(self.duration, update.duration),
            start_coordinates: self.start_coordinates.clone(),
            end_coordinates: self.end_coordinates.clone(),
            waypoints: replaced_optional(&self.waypoints, &update.waypoints),
            created_at: self.created_at,
        }
    }

    /// The statement that stores this route as a new record.
    pub fn insertion(&self) -> (res: Result<Statement, StoreError>)
        ensures
            outcome(res) == route_insertion(self@),
    {
        let created_at = self.created_at.to_sql()?;
        let ghost cells = seq![
            SqlValueView::Text(self.id@),
            SqlValueView::Text(self.travel_plan_id@),
            SqlValueView::Text(self.name@),
            optional_text_cell(self.description.deep_view()),
            optional_integer_cell(self.distance),
            optional_integer_cell(self.duration),
            SqlValueView::Text(self.start_coordinates@),
            SqlValueView::Text(self.end_coordinates@),
            optional_text_cell(self.waypoints.deep_view()),
            created_at@,
        ];
        let mut params: Vec<SqlValue> = Vec::new();
        params.push(text(self.id.as_str()));
        params.push(text(self.travel_plan_id.as_str()));
        params.push(text(self.name.as_str()));
        params.push(optional_text(&self.description));
        params.push(optional_integer(self.distance));
        params.push(optional_integer(self.duration));
        params.push(text(self.start_coordinates.as_str()));
        params.push(text(self.end_coordinates.as_str()));
        params.push(optional_text(&self.waypoints));
        params.push(created_at);
        assert(params.deep_view() =~= cells);
        Ok(Statement { sql: INSERT_ROUTE, params })
    }

    /// The statement that stores the changeable fields of this route under its identifier.
    pub fn modification(&self) -> (statement: Statement)
        ensures
            statement@ == route_modification(self@),
    {
        let mut params: Vec<SqlValue> = Vec::new();
        params.push(text(self.name.as_str()));
        params.push(optional_text(&self.description));
        params.push(optional_integer(self.distance));
        params.push(optional_integer(self.duration));
        params.push(optional_text(&self.waypoints));
        params.push(text(self.id.as_str()));
        assert(params.deep_view() =~= route_modification(self@).params);
        Statement { sql: UPDATE_ROUTE, params }
    }

    /// Stores a route of `new_route` under a drawn identifier, created now,
    /// with the statement of [`RouteOption::insertion`], which is the one
    /// exchange with the store.
    pub fn create(store: &mut Store, new_route: &NewRouteOption) -> (res: Result<
        RouteOption,
        StoreError,
    >)
        ensures
            res matches Ok(route) ==> {
                &&& route@ == created_route(route.id@, new_route@, route.created_at)
                &&& route_insertion(route@) is Ok
                &&& ran_once(
                    old(store).trail(),
                    final(store).trail(),
                    route_insertion(route@)->Ok_0,
                )
                &&& last_changed(final(store).trail()) is Ok
            },
            res matches Err(e) ==> e is Engine && refused_once(
                old(store).trail(),
                final(store).trail(),
                INSERT_ROUTE@,
                e@,
            ),
    {
        let route = RouteOption::build(new_id(), new_route, now());
        let statement = match route.insertion() {
            Ok(statement) => statement,
            Err(e) => {
                return Err(e);
            },
        };
        match store.run(&statement) {
            Ok(_) => Ok(route),
            Err(e) => Err(e),
        }
    }

    /// Looks a route up by identifier: asks `SELECT_ROUTE_BY_ID` once and
    /// reads the first row.
    pub fn find_by_id(store: &mut Store, id: &str) -> (res: Result<
        Option<RouteOption>,
        StoreError,
    >)
        ensures
            asked_once(old(store).trail(), final(store).trail(), keyed(SELECT_ROUTE_BY_ID@, id@)),
            outcome(res) == found_route(last_rows(final(store).trail())),
            res matches Err(e) ==> is_read_failure(e),
    {
        let rows = store.fetch(&Statement::keyed(SELECT_ROUTE_BY_ID, id))?;
        RouteOption::first(&rows)
    }

    /// The routes stored for a plan: asks `SELECT_ROUTES_BY_PLAN` once and
    /// reads every row.
    pub fn find_by_travel_plan_id(store: &mut Store, travel_plan_id: &str) -> (res: Result<
        Vec<RouteOption>,
        StoreError,
    >)
        ensures
            asked_once(
                old(store).trail(),
                final(store).trail(),
                keyed(SELECT_ROUTES_BY_PLAN@, travel_plan_id@),
            ),
            outcome(res) == listed_routes(last_rows(final(store).trail())),
            res matches Err(e) ==> is_read_failure(e),
    {
        let rows = store.fetch(&Statement::keyed(SELECT_ROUTES_BY_PLAN, travel_plan_id))?;
        RouteOption::all(&rows)
    }

    /// Applies a partial update and stores the result under this route's
    /// identifier with the statement of [`RouteOption::modification`], which
    /// is the one exchange with the store.
    pub fn update(&self, store: &mut Store, update: &UpdateRouteOption) -> (res: Result<
        RouteOption,
        StoreError,
    >)
        ensures
            ran_once(
                old(store).trail(),
                final(store).trail(),
                route_modification(updated_route(self@, update@)),
            ),
            outcome(res) == match last_changed(final(store).trail()) {
                Ok(_) => Ok::<RouteOptionView, StoreErrorView>(updated_route(self@, update@)),
                Err(e) => Err::<RouteOptionView, StoreErrorView>(e),
            },
            res matches Err(e) ==> e is Engine,
    {
        let route = self.updated(update);
        match store.run(&route.modification()) {
            Ok(_) => Ok(route),
            Err(e) => Err(e),
        }
    }

    /// Deletes the route with this identifier: runs `DELETE_ROUTE` once; true
    /// where a record went.
    pub fn delete(store: &mut Store, id: &str) -> (res: Result<bool, StoreError>)
        ensures
            ran_once(old(store).trail(), final(store).trail(), keyed(DELETE_ROUTE@, id@)),
            outcome(res) == removed(last_changed(final(store).trail())),
            res matches Err(e) ==> e is Engine,
    {
        let changed = store.run(&Statement::keyed(DELETE_ROUTE, id))?;
        Ok(changed > 0)
    }

    /// Draws between one and four positions.
    pub fn draw_waypoints() -> (points: Vec<String>)
        ensures
            1 <= points.len() <= MAX_WAYPOINTS,
            forall|k: int| 0 <= k < points.len() ==> is_coordinate(#[trigger] points[k]@),
    {
        let wanted = draw(1, MAX_WAYPOINTS);
        let mut points: Vec<String> = Vec::new();
        let mut k: i64 = 0;
        while k < wanted
            invariant
                0 <= k <= wanted <= MAX_WAYPOINTS,
                points.len() == k,
                forall|j: int| 0 <= j < points.len() ==> is_coordinate(#[trigger] points[j]@),
            decreases wanted - k,
        {
            points.push(random_coordinate());
            k = k + 1;
        }
        points
    }

    /// Draws the fields of the route at position `index` of a batch.
    pub fn draw_fields(
        plan_id: &str,
        index: usize,
        start: &str,
        end: &str,
        start_coordinates: &str,
        end_coordinates: &str,
    ) -> (fields: NewRouteOption)
        requires
            index < usize::MAX,
        ensures
            is_generated(
                fields@,
                plan_id@,
                index as nat,
                start@,
                end@,
                start_coordinates@,
                end_coordinates@,
            ),
    {
        let distance = draw(MIN_DISTANCE, MAX_DISTANCE);
        let duration = draw(MIN_DURATION, MAX_DURATION);
        let waypoints = RouteOption::draw_waypoints();
        let fields = NewRouteOption::synthesize(
            plan_id,
            index,
            start,
            end,
            start_coordinates,
            end_coordinates,
            distance,
            duration,
            &waypoints,
        );
        proof {
            let points = views(waypoints@);
            assert forall|k: int| 0 <= k < points.len() implies is_coordinate(
                #[trigger] points[k],
            ) by {
                assert(points[k] == waypoints[k]@);
            }
            assert(fields@.waypoints == Some(join_spec(points, ";"@)));
            assert(is_waypoint_list(join_spec(points, ";"@)));
        }
        fields
    }

    /// Generates and stores `count` routes for a plan between two places. The
    /// batch shares one drawn pair of end points; each route has the name and
    /// description of its position, a distance between 10 and 1000 kilometres,
    /// a duration between 30 and 720 minutes, and between one and four
    /// waypoints. `Ok` holds all `count` routes in order, and each was stored
    /// by one insertion, these being all the exchanges with the store; the
    /// first refusal of the store ends the batch with its error.
    pub fn generate_for(
        store: &mut Store,
        travel_plan_id: &str,
        start_location: &str,
        end_location: &str,
        count: usize,
    ) -> (res: Result<Vec<RouteOption>, StoreError>)
        ensures
            continues(old(store).trail(), final(store).trail()),
            res matches Ok(routes) ==> {
                &&& routes.len() == count
                &&& is_generated_batch(
                    routes.deep_view(),
                    travel_plan_id@,
                    start_location@,
                    end_location@,
                )
                &&& stored_routes(old(store).trail(), final(store).trail(), routes.deep_view())
            },
            res matches Err(e) ==> e is Engine && stored_routes_until_refused(
                old(store).trail(),
                final(store).trail(),
                e@,
            ),
    {
        let start_coordinates = random_coordinate();
        let end_coordinates = random_coordinate();
        let mut routes: Vec<RouteOption> = Vec::new();
        let mut i: usize = 0;
        proof {
            lemma_continues_itself(store.trail());
        }
        while i < count
            invariant
                i <= count,
                routes.len() == i,
                stored_routes(old(store).trail(), store.trail(), routes.deep_view()),
                forall|j: int|
                    0 <= j < i ==> is_generated(
                        fields_of(#[trigger] routes.deep_view()[j]),
                        travel_plan_id@,
                        j as nat,
                        start_location@,
                        end_location@,
                        start_coordinates@,
                        end_coordinates@,
                    ),
            decreases count - i,
        {
            let fields = RouteOption::draw_fields(
                travel_plan_id,
                i,
                start_location,
                end_location,
                start_coordinates.as_str(),
                end_coordinates.as_str(),
            );
            let ghost before = store.trail();
            let ghost earlier = routes.deep_view();
            match RouteOption::create(store, &fields) {
                Err(e) => {
                    proof {
                        lemma_one_more_continues(before, store.trail());
                        crate::db::statement::lemma_continues_twice(
                            old(store).trail(),
                            before,
                            store.trail(),
                        );
                        assert(stored_routes(old(store).trail(), store.trail().drop_last(), earlier));
                    }
                    return Err(e);
                },
                Ok(route) => {
                    let ghost added = route.deep_view();
                    assert(fields_of(added) == fields@);
                    routes.push(route);
                    proof {
                        assert(routes.deep_view() =~= earlier.push(added));
                        lemma_one_more_continues(before, store.trail());
                        crate::db::statement::lemma_continues_twice(
                            old(store).trail(),
                            before,
                            store.trail(),
                        );
                        let after = store.trail();
                        let start = old(store).trail().len();
                        assert forall|k: int| 0 <= k < routes.deep_view().len() implies {
                            let exchange = #[trigger] after[start + k];
                            &&& exchange is Ran
                            &&& route_insertion(routes.deep_view()[k]) == Ok::<
                                StatementView,
                                StoreErrorView,
                            >(exchange->ran)
                            &&& exchange->changed is Ok
                        } by {
                            if k < earlier.len() {
                                assert(after[start + k] == before[start + k]);
                            } else {
                                assert(after[start + k] == after.last());
                            }
                        }
                    }
                },
            }
            i = i + 1;
        }
        assert(is_coordinate(start_coordinates@) && is_coordinate(end_coordinates@));
        Ok(routes)
    }

    /// Generates and stores `count` routes for the plan with this identifier,
    /// between the places that the store holds for it: asks
    /// `SELECT_PLAN_LOCATIONS` first and then works as
    /// [`RouteOption::generate_for`] between the places that the first row
    /// gives. Where the lookup fails its failure is returned; where the store
    /// holds no such plan, nothing is generated and `Ok` holds no route; where
    /// the row cannot be read, that is the failure. In these three cases the
    /// lookup is the only exchange with the store.
    pub fn generate_random_options(store: &mut Store, travel_plan_id: &str, count: usize) -> (res:
        Result<Vec<RouteOption>, StoreError>)
        ensures
            is_route_generation(
                old(store).trail(),
                final(store).trail(),
                travel_plan_id@,
                count as nat,
                outcome(res),
            ),
    {
        let ghost before = store.trail();
        let rows = match store.fetch(&Statement::keyed(SELECT_PLAN_LOCATIONS, travel_plan_id)) {
            Ok(rows) => rows,
            Err(e) => {
                proof {
                    lemma_one_more_continues(before, store.trail());
                }
                return Err(e);
            },
        };
        let ghost asked = store.trail();
        proof {
            lemma_one_more_continues(before, asked);
        }
        if rows.len() == 0 {
            let routes: Vec<RouteOption> = Vec::new();
            assert(routes.deep_view() =~= Seq::<RouteOptionView>::empty());
            return Ok(routes);
        }
        assert(rows.deep_view()[0] == rows[0].deep_view());
        let places = match RouteOption::places(&rows[0]) {
            Ok(places) => places,
            Err(e) => {
                return Err(e);
            },
        };
        let res = RouteOption::generate_for(
            store,
            travel_plan_id,
            places.0.as_str(),
            places.1.as_str(),
            count,
        );
        proof {
            let after = store.trail();
            crate::db::statement::lemma_continues_twice(before, asked, after);
            crate::db::statement::lemma_continued_stays(asked, after, before.len() as int);
            assert(after.take(before.len() as int + 1) =~= asked);
        }
        res
    }

    /// Reads the two places of a plan from a row of `SELECT_PLAN_LOCATIONS`.
    pub fn places(row: &Vec<SqlValue>) -> (res: Result<(String, String), StoreError>)
        ensures
            outcome(res) == places_of_row(row.deep_view()),
    {
        let start = text_at(row, 0)?;
        let end = text_at(row, 1)?;
        Ok((start, end))
    }
}

} // verus!
