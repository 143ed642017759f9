//! Travel plans: the records that a user owns.

use crate::db::datetime::instant_at;
use crate::db::datetime::instant_at_spec;
use crate::db::datetime::now;
use crate::db::datetime::optional_instant_at;
use crate::db::datetime::optional_instant_at_spec;
use crate::db::datetime::NullableSqlDateTime;
use crate::db::datetime::nullable_to_sql_spec;
use crate::db::datetime::representable;
use crate::db::datetime::to_sql_spec;
use crate::db::datetime::SqlDateTime;
use crate::db::statement::asked_once;
use crate::db::statement::is_read_failure;
use crate::db::statement::keyed;
use crate::db::statement::last_changed;
use crate::db::statement::last_rows;
use crate::db::statement::plain;
use crate::db::statement::ran_once;
use crate::db::statement::refused_once;
use crate::db::statement::removed;
use crate::db::statement::Rows;
use crate::db::statement::Store;
use crate::db::statement::optional_text;
use crate::db::statement::optional_text_at;
use crate::db::statement::optional_text_at_spec;
use crate::db::statement::optional_text_cell;
use crate::db::statement::text;
use crate::db::statement::text_at;
use crate::db::statement::text_at_spec;
use crate::db::statement::SqlValue;
use crate::db::statement::SqlValueView;
use crate::db::statement::Statement;
use crate::db::statement::StatementView;
use crate::db::statement::StoreError;
use crate::db::statement::StoreErrorView;
use crate::random::new_id;
use crate::text::copy_optional;
use crate::text::replaced;
use crate::text::replaced_optional;
use crate::views::outcome;
use vstd::prelude::*;

verus! {

pub const INSERT_PLAN: &'static str =
    "INSERT INTO travel_plans (id, user_id, name, description, start_location, end_location, start_date, end_date, created_at, updated_at) VALUES (?1, ?2, ?3, ?4, ?5, ?6, ?7, ?8, ?9, ?10)";

pub const SELECT_PLAN_BY_ID: &'static str =
    "SELECT id, user_id, name, description, start_location, end_location, start_date, end_date, created_at, updated_at FROM travel_plans WHERE id = ?1";

pub const SELECT_PLANS_BY_USER: &'static str =
    "SELECT id, user_id, name, description, start_location, end_location, start_date, end_date, created_at, updated_at FROM travel_plans WHERE user_id = ?1 ORDER BY created_at DESC";

pub const SELECT_PLANS: &'static str =
    "SELECT id, user_id, name, description, start_location, end_location, start_date, end_date, created_at, updated_at FROM travel_plans ORDER BY created_at DESC";

pub const UPDATE_PLAN: &'static str =
    "UPDATE travel_plans SET name = ?1, description = ?2, start_location = ?3, end_location = ?4, start_date = ?5, end_date = ?6, updated_at = ?7 WHERE id = ?8";

pub const DELETE_PLAN: &'static str = "DELETE FROM travel_plans WHERE id = ?1";

/// A travel plan. `user_id` names its owner and never changes.
#[derive(Debug, Clone, PartialEq, Eq)]
pub struct TravelPlan {
    pub id: String,
    pub user_id: String,
    pub name: String,
    pub description: Option<String>,
    pub start_location: String,
    pub end_location: String,
    pub start_date: Option<SqlDateTime>,
    pub end_date: Option<SqlDateTime>,
    pub created_at: SqlDateTime,
    pub updated_at: SqlDateTime,
}

/// The mathematical value of a [`TravelPlan`].
pub struct TravelPlanView {
    pub id: Seq<char>,
    pub user_id: Seq<char>,
    pub name: Seq<char>,
    pub description: Option<Seq<char>>,
    pub start_location: Seq<char>,
    pub end_location: Seq<char>,
    pub start_date: Option<SqlDateTime>,
    pub end_date: Option<SqlDateTime>,
    pub created_at: SqlDateTime,
    pub updated_at: SqlDateTime,
}

impl DeepView for TravelPlan {
    type V = TravelPlanView;

    open spec fn deep_view(&self) -> TravelPlanView {
        TravelPlanView {
            id: self.id@,
            user_id: self.user_id@,
            name: self.name@,
            description: self.description.deep_view(),
            start_location: self.start_location@,
            end_location: self.end_location@,
            start_date: self.start_date,
            end_date: self.end_date,
            created_at: self.created_at,
            updated_at: self.updated_at,
        }
    }
}

impl View for TravelPlan {
    type V = TravelPlanView;

    open spec fn view(&self) -> TravelPlanView {
        self.deep_view()
    }
}

/// The fields that a caller gives for a new plan. `user_id` is carried for
/// the caller's convenience only: the owner of the plan is whoever creates it.
#[derive(Debug, Clone, PartialEq, Eq)]
pub struct NewTravelPlan {
    pub user_id: String,
    pub name: String,
    pub description: Option<String>,
    pub start_location: String,
    pub end_location: String,
    pub start_date: Option<SqlDateTime>,
    pub end_date: Option<SqlDateTime>,
}

/// The mathematical value of a [`NewTravelPlan`].
pub struct NewTravelPlanView {
    pub user_id: Seq<char>,
    pub name: Seq<char>,
    pub description: Option<Seq<char>>,
    pub start_location: Seq<char>,
    pub end_location: Seq<char>,
    pub start_date: Option<SqlDateTime>,
    pub end_date: Option<SqlDateTime>,
}

impl DeepView for NewTravelPlan {
    type V = NewTravelPlanView;

    open spec fn deep_view(&self) -> NewTravelPlanView {
        NewTravelPlanView {
            user_id: self.user_id@,
            name: self.name@,
            description: self.description.deep_view(),
            start_location: self.start_location@,
            end_location: self.end_location@,
            start_date: self.start_date,
            end_date: self.end_date,
        }
    }
}

impl View for NewTravelPlan {
    type V = NewTravelPlanView;

    open spec fn view(&self) -> NewTravelPlanView {
        self.deep_view()
    }
}

/// A partial update: each field that is present replaces the plan's, each
/// absent one leaves it as it is.
#[derive(Debug, Clone, PartialEq, Eq)]
pub struct UpdateTravelPlan {
    pub name: Option<String>,
    pub description: Option<String>,
    pub start_location: Option<String>,
    pub end_location: Option<String>,
    pub start_date: Option<SqlDateTime>,
    pub end_date: Option<SqlDateTime>,
}

/// The mathematical value of an [`UpdateTravelPlan`].
pub struct UpdateTravelPlanView {
    pub name: Option<Seq<char>>,
    pub description: Option<Seq<char>>,
    pub start_location: Option<Seq<char>>,
    pub end_location: Option<Seq<char>>,
    pub start_date: Option<SqlDateTime>,
    pub end_date: Option<SqlDateTime>,
}

impl DeepView for UpdateTravelPlan {
    type V = UpdateTravelPlanView;

    open spec fn deep_view(&self) -> UpdateTravelPlanView {
        UpdateTravelPlanView {
            name: self.name.deep_view(),
            description: self.description.deep_view(),
            start_location: self.start_location.deep_view(),
            end_location: self.end_location.deep_view(),
            start_date: self.start_date,
            end_date: self.end_date,
        }
    }
}

impl View for UpdateTravelPlan {
    type V = UpdateTravelPlanView;

    open spec fn view(&self) -> UpdateTravelPlanView {
        self.deep_view()
    }
}

/// The update that changes nothing.
pub open spec fn no_change() -> UpdateTravelPlanView {
    UpdateTravelPlanView {
        name: None,
        description: None,
        start_location: None,
        end_location: None,
        start_date: None,
        end_date: None,
    }
}

/// The plan that a row of ten cells holds.
pub open spec fn plan_of_row(row: Seq<SqlValueView>) -> Result<TravelPlanView, StoreErrorView> {
    match text_at_spec(row, 0) {
        Err(e) => Err(e),
        Ok(id) => match text_at_spec(row, 1) {
            Err(e) => Err(e),
            Ok(user_id) => match text_at_spec(row, 2) {
                Err(e) => Err(e),
                Ok(name) => match optional_text_at_spec(row, 3) {
                    Err(e) => Err(e),
                    Ok(description) => match text_at_spec(row, 4) {
                        Err(e) => Err(e),
                        Ok(start_location) => match text_at_spec(row, 5) {
                            Err(e) => Err(e),
                            Ok(end_location) => match optional_instant_at_spec(row, 6) {
                                Err(e) => Err(e),
                                Ok(start_date) => match optional_instant_at_spec(row, 7) {
                                    Err(e) => Err(e),
                                    Ok(end_date) => match instant_at_spec(row, 8) {
                                        Err(e) => Err(e),
                                        Ok(created_at) => match instant_at_spec(row, 9) {
                                            Err(e) => Err(e),
                                            Ok(updated_at) => Ok(
                                                TravelPlanView {
                                                    id,
                                                    user_id,
                                                    name,
                                                    description,
                                                    start_location,
                                                    end_location,
                                                    start_date,
                                                    end_date,
                                                    created_at,
                                                    updated_at,
                                                },
                                            ),
                                        },
                                    },
                                },
                            },
                        },
                    },
                },
            },
        },
    }
}

/// The plan that the first of some rows holds; no plan where there is no row.
pub open spec fn first_plan(rows: Seq<Seq<SqlValueView>>) -> Result<
    Option<TravelPlanView>,
    StoreErrorView,
> {
    if rows.len() == 0 {
        Ok(None)
    } else {
        match plan_of_row(rows[0]) {
            Ok(plan) => Ok(Some(plan)),
            Err(e) => Err(e),
        }
    }
}

/// The plans that some rows hold, in their order: the error of the first row
/// that holds none, where there is such a row.
pub open spec fn plans_of_rows(rows: Seq<Seq<SqlValueView>>) -> Result<
    Seq<TravelPlanView>,
    StoreErrorView,
>
    decreases rows.len(),
{
    if rows.len() == 0 {
        Ok(Seq::empty())
    } else {
        match plans_of_rows(rows.drop_last()) {
            Err(e) => Err(e),
            Ok(plans) => match plan_of_row(rows.last()) {
                Err(e) => Err(e),
                Ok(plan) => Ok(plans.push(plan)),
            },
        }
    }
}

/// The plan that a lookup found, given the rows that the store gave.
pub open spec fn found_plan(rows: Rows) -> Result<Option<TravelPlanView>, StoreErrorView> {
    match rows {
        Ok(rows) => first_plan(rows),
        Err(e) => Err(e),
    }
}

/// The plans that a listing found, given the rows that the store gave.
pub open spec fn listed_plans(rows: Rows) -> Result<Seq<TravelPlanView>, StoreErrorView> {
    match rows {
        Ok(rows) => plans_of_rows(rows),
        Err(e) => Err(e),
    }
}

/// The plan that a creation makes of the given fields for an owner at an instant.
pub open spec fn created_plan(
    id: Seq<char>,
    owner: Seq<char>,
    fields: NewTravelPlanView,
    at: SqlDateTime,
) -> TravelPlanView {
    TravelPlanView {
        id,
        user_id: owner,
        name: fields.name,
        description: fields.description,
        start_location: fields.start_location,
        end_location: fields.end_location,
        start_date: fields.start_date,
        end_date: fields.end_date,
        created_at: at,
        updated_at: at,
    }
}

/// The plan after a partial update at an instant: each present field of the
/// update replaces the plan's, `updated_at` becomes the instant, and the
/// identifier, the owner and the instant of creation stay.
pub open spec fn updated_plan(
    plan: TravelPlanView,
    update: UpdateTravelPlanView,
    at: SqlDateTime,
) -> TravelPlanView {
    TravelPlanView {
        id: plan.id,
        user_id: plan.user_id,
        name: match update.name {
            Some(name) => name,
            None => plan.name,
        },
        description: match update.description {
            Some(description) => Some(description),
            None => plan.description,
        },
        start_location: match update.start_location {
            Some(location) => location,
            None => plan.start_location,
        },
        end_location: match update.end_location {
            Some(location) => location,
            None => plan.end_location,
        },
        start_date: match update.start_date {
            Some(date) => Some(date),
            None => plan.start_date,
        },
        end_date: match update.end_date {
            Some(date) => Some(date),
            None => plan.end_date,
        },
        created_at: plan.created_at,
        updated_at: at,
    }
}

/// True of a date that the store can hold: none, or an instant that can be written.
pub open spec fn storable(date: Option<SqlDateTime>) -> bool {
    match date {
        Some(instant) => representable(instant.secs, instant.nanos),
        None => true,
    }
}

/// The statement that stores a new plan: its ten fields in the order of the
/// columns, each instant as the cell that holds it.
pub open spec fn plan_insertion(plan: TravelPlanView) -> Result<StatementView, StoreErrorView> {
    match nullable_to_sql_spec(plan.start_date) {
        Err(e) => Err(e),
        Ok(start_date) => match nullable_to_sql_spec(plan.end_date) {
            Err(e) => Err(e),
            Ok(end_date) => match to_sql_spec(plan.created_at) {
                Err(e) => Err(e),
                Ok(created_at) => match to_sql_spec(plan.updated_at) {
                    Err(e) => Err(e),
                    Ok(updated_at) => Ok(
                        StatementView {
                            sql: INSERT_PLAN@,
                            params: seq![
                                SqlValueView::Text(plan.id),
                                SqlValueView::Text(plan.user_id),
                                SqlValueView::Text(plan.name),
                                optional_text_cell(plan.description),
                                SqlValueView::Text(plan.start_location),
                                SqlValueView::Text(plan.end_location),
                                start_date,
                                end_date,
                                created_at,
                                updated_at,
                            ],
                        },
                    ),
                },
            },
        },
    }
}

/// The statement that stores the changeable fields of a plan under its
/// identifier: name, description, the two places, the two dates, `updated_at`.
/// The owner and the instant of creation are not among them.
pub open spec fn plan_modification(plan: TravelPlanView) -> Result<StatementView, StoreErrorView> {
    match nullable_to_sql_spec(plan.start_date) {
        Err(e) => Err(e),
        Ok(start_date) => match nullable_to_sql_spec(plan.end_date) {
            Err(e) => Err(e),
            Ok(end_date) => match to_sql_spec(plan.updated_at) {
                Err(e) => Err(e),
                Ok(updated_at) => Ok(
                    StatementView {
                        sql: UPDATE_PLAN@,
                        params: seq![
                            SqlValueView::Text(plan.name),
                            optional_text_cell(plan.description),
                            SqlValueView::Text(plan.start_location),
                            SqlValueView::Text(plan.end_location),
                            start_date,
                            end_date,
                            updated_at,
                            SqlValueView::Text(plan.id),
                        ],
                    },
                ),
            },
        },
    }
}

/// An update without any field changes nothing but `updated_at`.
pub proof fn lemma_update_without_fields(plan: TravelPlanView, at: SqlDateTime)
    ensures
        updated_plan(plan, no_change(), at) == (TravelPlanView { updated_at: at, ..plan }),
{
}

/// Updating twice with the same fields gives the plan that the second update
/// alone gives: the visible state is the same both times, up to `updated_at`.
pub proof fn lemma_update_twice(
    plan: TravelPlanView,
    update: UpdateTravelPlanView,
    first: SqlDateTime,
    second: SqlDateTime,
)
    ensures
        updated_plan(updated_plan(plan, update, first), update, second) == updated_plan(
            plan,
            update,
            second,
        ),
        updated_plan(plan, update, second) == (TravelPlanView {
            updated_at: second,
            ..updated_plan(plan, update, first)
        }),
{
}

/// No update changes the identifier, the owner or the instant of creation.
pub proof fn lemma_update_keeps_owner(
    plan: TravelPlanView,
    update: UpdateTravelPlanView,
    at: SqlDateTime,
)
    ensures
        updated_plan(plan, update, at).id == plan.id,
        updated_plan(plan, update, at).user_id == plan.user_id,
        updated_plan(plan, update, at).created_at == plan.created_at,
{
}

fn replaced_date(current: Option<SqlDateTime>, replacement: Option<SqlDateTime>) -> (value: Option<
    SqlDateTime,
>)
    ensures
        value == match replacement {
            Some(r) => Some(r),
            None => current,
        },
{
    match replacement {
        Some(r) => Some(r),
        None => current,
    }
}

impl TravelPlan {
    /// Reads a plan from a row.
    pub fn from_row(row: &Vec<SqlValue>) -> (res: Result<TravelPlan, StoreError>)
        ensures
            outcome(res) == plan_of_row(row.deep_view()),
            res matches Err(e) ==> e is MissingColumn || e is InvalidColumnType,
    {
        let id = text_at(row, 0)?;
        let user_id = text_at(row, 1)?;
        let name = text_at(row, 2)?;
        let description = optional_text_at(row, 3)?;
        let start_location = text_at(row, 4)?;
        let end_location = text_at(row, 5)?;
        let start_date = optional_instant_at(row, 6)?;
        let end_date = optional_instant_at(row, 7)?;
        let created_at = instant_at(row, 8)?;
        let updated_at = instant_at(row, 9)?;
        Ok(
            TravelPlan {
                id,
                user_id,
                name,
                description,
                start_location,
                end_location,
                start_date,
                end_date,
                created_at,
                updated_at,
            },
        )
    }

    /// Reads the plan of the first row, if there is a row.
    pub fn first(rows: &Vec<Vec<SqlValue>>) -> (res: Result<Option<TravelPlan>, StoreError>)
        ensures
            outcome(res) == first_plan(rows.deep_view()),
    {
        if rows.len() == 0 {
            Ok(None)
        } else {
            match TravelPlan::from_row(&rows[0]) {
                Ok(plan) => Ok(Some(plan)),
                Err(e) => Err(e),
            }
        }
    }

    /// Reads the plans of all rows, in their order.
    pub fn all(rows: &Vec<Vec<SqlValue>>) -> (res: Result<Vec<TravelPlan>, StoreError>)
        ensures
            outcome(res) == plans_of_rows(rows.deep_view()),
            res matches Err(e) ==> e is MissingColumn || e is InvalidColumnType,
    {
        let mut plans: Vec<TravelPlan> = Vec::new();
        let mut i: usize = 0;
        assert(rows.deep_view().take(0) =~= Seq::<Seq<SqlValueView>>::empty());
        assert(plans.deep_view() =~= Seq::<TravelPlanView>::empty());
        while i < rows.len()
            invariant
                i <= rows.len(),
                plans_of_rows(rows.deep_view().take(i as int)) == Ok::<
                    Seq<TravelPlanView>,
                    StoreErrorView,
                >(plans.deep_view()),
            decreases rows.len() - i,
        {
            let ghost before = rows.deep_view().take(i as int);
            let ghost after = rows.deep_view().take(i + 1);
            let ghost all = rows.deep_view();
            assert(after.drop_last() =~= before);
            assert(after.last() == rows[i as int].deep_view());
            match TravelPlan::from_row(&rows[i]) {
                Ok(plan) => {
                    let ghost earlier = plans.deep_view();
                    let ghost added = plan.deep_view();
                    plans.push(plan);
                    assert(plans.deep_view() =~= earlier.push(added));
                },
                Err(e) => {
                    proof {
                        lemma_plans_error_stays(all, i + 1);
                    }
                    return Err(e);
                },
            }
            i = i + 1;
        }
        assert(rows.deep_view().take(rows.len() as int) =~= rows.deep_view());
        Ok(plans)
    }

    /// A copy of this plan.
    pub fn copy(&self) -> (plan: TravelPlan)
        ensures
            plan@ == self@,
    {
        TravelPlan {
            id: self.id.clone(),
            user_id: self.user_id.clone(),
            name: self.name.clone(),
            description: copy_optional(&self.description),
            start_location: self.start_location.clone(),
            end_location: self.end_location.clone(),
            start_date: self.start_date,
            end_date: self.end_date,
            created_at: self.created_at,
            updated_at: self.updated_at,
        }
    }

    /// The plan that `owner` creates of `fields` under `id` at the instant `at`.
    pub fn build(id: String, owner: &str, fields: &NewTravelPlan, at: SqlDateTime) -> (plan:
        TravelPlan)
        ensures
            plan@ == created_plan(id@, owner@, fields@, at),
    {
        TravelPlan {
            id,
            user_id: String::from_str(owner),
            name: fields.name.clone(),
            description: copy_optional(&fields.description),
            start_location: fields.start_location.clone(),
            end_location: fields.end_location.clone(),
            start_date: fields.start_date,
            end_date: fields.end_date,
            created_at: at,
            updated_at: at,
        }
    }

    /// This plan after the partial update `update` at the instant `at`.
    pub fn updated(&self, update: &UpdateTravelPlan, at: SqlDateTime) -> (plan: TravelPlan)
        ensures
            plan@ == updated_plan(self@, update@, at),
    {
        TravelPlan {
            id: self.id.clone(),
            user_id: self.user_id.clone(),
            name: replaced(&self.name, &update.name),
            description: replaced_optional(&self.description, &update.description),
            start_location: replaced(&self.start_location, &update.start_location),
            end_location: replaced(&self.end_location, &update.end_location),
            start_date: replaced_date(self.start_date, update.start_date),
            end_date: replaced_date(self.end_date, update.end_date),
            created_at: self.created_at,
            updated_at: at,
        }
    }

    /// The statement that stores this plan as a new record.
    pub fn insertion(&self) -> (res: Result<Statement, StoreError>)
        ensures
            outcome(res) == plan_insertion(self@),
    {
        let start_date = NullableSqlDateTime(self.start_date).to_sql()?;
        let end_date = NullableSqlDateTime(self.end_date).to_sql()?;
        let created_at = self.created_at.to_sql()?;
        let updated_at = self.updated_at.to_sql()?;
        let ghost cells = seq![
            SqlValueView::Text(self.id@),
            SqlValueView::Text(self.user_id@),
            SqlValueView::Text(self.name@),
            optional_text_cell(self.description.deep_view()),
            SqlValueView::Text(self.start_location@),
            SqlValueView::Text(self.end_location@),
            start_date@,
            end_date@,
            created_at@,
            updated_at@,
        ];
        let mut params: Vec<SqlValue> = Vec::new();
        params.push(text(self.id.as_str()));
        params.push(text(self.user_id.as_str()));
        params.push(text(self.name.as_str()));
        params.push(optional_text(&self.description));
        params.push(text(self.start_location.as_str()));
        params.push(text(self.end_location.as_str()));
        params.push(start_date);
        params.push(end_date);
        params.push(created_at);
        params.push(updated_at);
        assert(params.deep_view() =~= cells);
        Ok(Statement { sql: INSERT_PLAN, params })
    }

    /// The statement that stores the changeable fields of this plan under its identifier.
    pub fn modification(&self) -> (res: Result<Statement, StoreError>)
        ensures
            outcome(res) == plan_modification(self@),
    {
        let start_date = NullableSqlDateTime(self.start_date).to_sql()?;
        let end_date = NullableSqlDateTime(self.end_date).to_sql()?;
        let updated_at = self.updated_at.to_sql()?;
        let ghost cells = seq![
            SqlValueView::Text(self.name@),
            optional_text_cell(self.description.deep_view()),
            SqlValueView::Text(self.start_location@),
            SqlValueView::Text(self.end_location@),
            start_date@,
            end_date@,
            updated_at@,
            SqlValueView::Text(self.id@),
        ];
        let mut params: Vec<SqlValue> = Vec::new();
        params.push(text(self.name.as_str()));
        params.push(optional_text(&self.description));
        params.push(text(self.start_location.as_str()));
        params.push(text(self.end_location.as_str()));
        params.push(start_date);
        params.push(end_date);
        params.push(updated_at);
        params.push(text(self.id.as_str()));
        assert(params.deep_view() =~= cells);
        Ok(Statement { sql: UPDATE_PLAN, params })
    }

    /// Creates a plan of `new_plan` that `user_id` owns, whatever owner
    /// `new_plan` names, and stores it with the statement of
    /// [`TravelPlan::insertion`], which is the one exchange with the store.
    /// The identifier is drawn and the two instants are the present. Dates
    /// that cannot be written are refused before the store is asked.
    pub fn create(store: &mut Store, new_plan: &NewTravelPlan, user_id: &str) -> (res: Result<
        TravelPlan,
        StoreError,
    >)
        ensures
            res matches Ok(plan) ==> {
                &&& plan@ == created_plan(plan.id@, user_id@, new_plan@, plan.created_at)
                &&& plan_insertion(plan@) is Ok
                &&& ran_once(
                    old(store).trail(),
                    final(store).trail(),
                    plan_insertion(plan@)->Ok_0,
                )
                &&& last_changed(final(store).trail()) is Ok
            },
            storable(new_plan.start_date) && storable(new_plan.end_date) ==> (res matches Err(e)
                ==> e is Engine && refused_once(
                old(store).trail(),
                final(store).trail(),
                INSERT_PLAN@,
                e@,
            )),
            !(storable(new_plan.start_date) && storable(new_plan.end_date)) ==> res == Err::<
                TravelPlan,
                StoreError,
            >(StoreError::Timestamp) && final(store).trail() == old(store).trail(),
    {
        let plan = TravelPlan::build(new_id(), user_id, new_plan, now());
        let statement = match plan.insertion() {
            Ok(statement) => statement,
            Err(e) => {
                return Err(e);
            },
        };
        match store.run(&statement) {
            Ok(_) => Ok(plan),
            Err(e) => Err(e),
        }
    }

    /// Looks a plan up by identifier: asks `SELECT_PLAN_BY_ID` once and reads
    /// the first row.
    pub fn find_by_id(store: &mut Store, id: &str) -> (res: Result<
        Option<TravelPlan>,
        StoreError,
    >)
        ensures
            asked_once(old(store).trail(), final(store).trail(), keyed(SELECT_PLAN_BY_ID@, id@)),
            outcome(res) == found_plan(last_rows(final(store).trail())),
            res matches Err(e) ==> is_read_failure(e),
    {
        let rows = store.fetch(&Statement::keyed(SELECT_PLAN_BY_ID, id))?;
        TravelPlan::first(&rows)
    }

    /// The plans stored for a user, the most recently created first: asks
    /// `SELECT_PLANS_BY_USER` once and reads every row.
    pub fn find_by_user_id(store: &mut Store, user_id: &str) -> (res: Result<
        Vec<TravelPlan>,
        StoreError,
    >)
        ensures
            asked_once(
                old(store).trail(),
                final(store).trail(),
                keyed(SELECT_PLANS_BY_USER@, user_id@),
            ),
            outcome(res) == listed_plans(last_rows(final(store).trail())),
            res matches Err(e) ==> is_read_failure(e),
    {
        let rows = store.fetch(&Statement::keyed(SELECT_PLANS_BY_USER, user_id))?;
        TravelPlan::all(&rows)
    }

    /// All plans, the most recently created first: asks `SELECT_PLANS` once
    /// and reads every row.
    pub fn get_all(store: &mut Store) -> (res: Result<Vec<TravelPlan>, StoreError>)
        ensures
            asked_once(old(store).trail(), final(store).trail(), plain(SELECT_PLANS@)),
            outcome(res) == listed_plans(last_rows(final(store).trail())),
            res matches Err(e) ==> is_read_failure(e),
    {
        let rows = store.fetch(&Statement::plain(SELECT_PLANS))?;
        TravelPlan::all(&rows)
    }

    /// Applies a partial update now and stores the result under this plan's
    /// identifier with the statement of [`TravelPlan::modification`], which is
    /// the one exchange with the store. Dates that cannot be written are
    /// refused before the store is asked.
    pub fn update(&self, store: &mut Store, update: &UpdateTravelPlan) -> (res: Result<
        TravelPlan,
        StoreError,
    >)
        ensures
            res matches Ok(plan) ==> {
                &&& plan@ == updated_plan(self@, update@, plan.updated_at)
                &&& plan_modification(plan@) is Ok
                &&& ran_once(
                    old(store).trail(),
                    final(store).trail(),
                    plan_modification(plan@)->Ok_0,
                )
                &&& last_changed(final(store).trail()) is Ok
            },
            storable(updated_plan(self@, update@, self.updated_at).start_date) && storable(
                updated_plan(self@, update@, self.updated_at).end_date,
            ) ==> (res matches Err(e) ==> e is Engine && refused_once(
                old(store).trail(),
                final(store).trail(),
                UPDATE_PLAN@,
                e@,
            )),
            !(storable(updated_plan(self@, update@, self.updated_at).start_date) && storable(
                updated_plan(self@, update@, self.updated_at).end_date,
            )) ==> res == Err::<TravelPlan, StoreError>(StoreError::Timestamp)
                && final(store).trail() == old(store).trail(),
    {
        let plan = self.updated(update, now());
        let statement = match plan.modification() {
            Ok(statement) => statement,
            Err(e) => {
                return Err(e);
            },
        };
        match store.run(&statement) {
            Ok(_) => Ok(plan),
            Err(e) => Err(e),
        }
    }

    /// Deletes the plan with this identifier: runs `DELETE_PLAN` once; true
    /// where a record went.
    pub fn delete(store: &mut Store, id: &str) -> (res: Result<bool, StoreError>)
        ensures
            ran_once(old(store).trail(), final(store).trail(), keyed(DELETE_PLAN@, id@)),
            outcome(res) == removed(last_changed(final(store).trail())),
            res matches Err(e) ==> e is Engine,
    {
        let changed = store.run(&Statement::keyed(DELETE_PLAN, id))?;
        Ok(changed > 0)
    }
}

/// Once a prefix of the rows fails, every longer prefix fails with the same error.
proof fn lemma_plans_error_stays(rows: Seq<Seq<SqlValueView>>, n: int)
    requires
        0 <= n <= rows.len(),
        plans_of_rows(rows.take(n)) is Err,
    ensures
        plans_of_rows(rows) == plans_of_rows(rows.take(n)),
    decreases rows.len() - n,
{
    if n == rows.len() {
        assert(rows.take(n) =~= rows);
    } else {
        assert(rows.take(n + 1).drop_last() =~= rows.take(n));
        lemma_plans_error_stays(rows, n + 1);
    }
}

} // verus!
