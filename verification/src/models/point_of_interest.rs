//! Points of interest: the places generated along a route option.

use crate::db::datetime::instant_at;
use crate::db::datetime::instant_at_spec;
use crate::db::datetime::now;
use crate::db::datetime::to_sql_spec;
use crate::db::datetime::SqlDateTime;
use crate::db::statement::asked_once;
use crate::db::statement::continues;
use crate::db::statement::is_read_failure;
use crate::db::statement::keyed;
use crate::db::statement::last_changed;
use crate::db::statement::last_rows;
use crate::db::statement::lemma_continues_itself;
use crate::db::statement::lemma_continues_twice;
use crate::db::statement::lemma_one_more_continues;
use crate::db::statement::nth_since;
use crate::db::statement::ran_once;
use crate::db::statement::refused_once;
use crate::db::statement::removed;
use crate::db::statement::Exchange;
use crate::db::statement::Rows;
use crate::db::statement::Store;
use crate::db::statement::optional_text;
use crate::db::statement::optional_text_at;
use crate::db::statement::optional_text_at_spec;
use crate::db::statement::optional_text_cell;
use crate::db::statement::text;
use crate::db::statement::text_at;
use crate::db::statement::text_at_spec;
use crate::db::statement::SqlValue;
use crate::db::statement::SqlValueView;
use crate::db::statement::Statement;
use crate::db::statement::StatementView;
use crate::db::statement::StoreError;
use crate::db::statement::StoreErrorView;
use crate::random::is_coordinate;
use crate::random::new_id;
use crate::random::pick;
use crate::random::random_coordinate;
use crate::text::split;
use crate::text::split_spec;
use crate::text::views;
use crate::text::copy_optional;
use crate::text::replaced;
use crate::text::replaced_optional;
use crate::views::outcome;
use vstd::prelude::*;

verus! {

pub const INSERT_POI: &'static str =
    "INSERT INTO points_of_interest (id, route_option_id, name, description, category, coordinates, created_at) VALUES (?1, ?2, ?3, ?4, ?5, ?6, ?7)";

pub const SELECT_POI_BY_ID: &'static str =
    "SELECT id, route_option_id, name, description, category, coordinates, created_at FROM points_of_interest WHERE id = ?1";

pub const SELECT_POIS_BY_ROUTE: &'static str =
    "SELECT id, route_option_id, name, description, category, coordinates, created_at FROM points_of_interest WHERE route_option_id = ?1";

pub const UPDATE_POI: &'static str =
    "UPDATE points_of_interest SET name = ?1, description = ?2, category = ?3 WHERE id = ?4";

pub const DELETE_POI: &'static str = "DELETE FROM points_of_interest WHERE id = ?1";

pub const DELETE_POIS_BY_ROUTE: &'static str =
    "DELETE FROM points_of_interest WHERE route_option_id = ?1";

pub const SELECT_ROUTE_POSITIONS: &'static str =
    "SELECT start_coordinates, end_coordinates, waypoints FROM route_options WHERE id = ?1";

/// The categories of generated points of interest.
pub const CATEGORIES: [&'static str; 10] = [
    "Restaurant",
    "Museum",
    "Park",
    "Hotel",
    "Landmark",
    "Beach",
    "Mountain",
    "Lake",
    "Forest",
    "Historical Site",
];

/// What a generated name begins with, by category.
pub const NAME_OPENINGS: [&'static str; 10] = [
    "The ",
    "",
    "",
    "Hotel ",
    "The ",
    "",
    "Mount ",
    "Lake ",
    "",
    "",
];

/// The words of which one stands in a generated name, by category.
pub const NAME_WORDS: [[&'static str; 5]; 10] = [
    ["Delicious", "Tasty", "Gourmet", "Cozy", "Fancy"],
    ["Art", "History", "Science", "Natural", "Modern"],
    ["Central", "City", "National", "Memorial", "State"],
    ["Grand", "Royal", "Luxury", "Comfort", "Plaza"],
    ["Historic", "Ancient", "Famous", "Iconic", "Majestic"],
    ["Sandy", "Golden", "Paradise", "Sunset", "Crystal"],
    ["Everest", "Fuji", "Kilimanjaro", "McKinley", "Blanc"],
    ["Superior", "Victoria", "Michigan", "Geneva", "Como"],
    ["Enchanted", "Dark", "Ancient", "Mystic", "Green"],
    ["Historical", "Cultural", "Heritage", "Ancient", "Traditional"],
];

/// What a generated name ends with, by category.
pub const NAME_ENDINGS: [&'static str; 10] = [
    " Restaurant",
    " Museum",
    " Park",
    "",
    " Monument",
    " Beach",
    "",
    "",
    " Forest",
    " Site",
];

/// What a generated description begins with, by category.
pub const DESCRIPTION_OPENINGS: [&'static str; 10] = [
    "A ",
    "A museum showcasing ",
    "A beautiful park with ",
    "A ",
    "A famous landmark known for its ",
    "A ",
    "A majestic mountain offering ",
    "A ",
    "A ",
    "A ",
];

/// The words of which one stands in a generated description, by category.
pub const DESCRIPTION_WORDS: [[&'static str; 5]; 10] = [
    ["cozy", "fancy", "family-friendly", "romantic", "traditional"],
    ["historical", "artistic", "scientific", "cultural", "interactive"],
    ["scenic", "panoramic", "breathtaking", "relaxing", "peaceful"],
    ["luxury", "boutique", "historic", "modern", "charming"],
    ["impressive", "unique", "historic", "stunning", "iconic"],
    ["sandy", "secluded", "popular", "pristine", "tropical"],
    ["challenging", "scenic", "popular", "diverse", "beautiful"],
    ["serene", "vast", "picturesque", "clear", "beautiful"],
    ["dense", "ancient", "magical", "lush", "protected"],
    ["fascinating", "well-preserved", "ancient", "significant", "mysterious"],
];

/// What a generated description ends with, by category.
pub const DESCRIPTION_ENDINGS: [&'static str; 10] = [
    " restaurant with excellent food and service.",
    " exhibits.",
    " views.",
    " hotel with excellent amenities.",
    " architecture.",
    " beach with crystal clear waters.",
    " hiking trails.",
    " lake perfect for outdoor activities.",
    " forest with diverse flora and fauna.",
    " historical site with rich heritage.",
];

/// A point of interest along a route option. `route_option_id` names the
/// route and never changes.
#[derive(Debug, Clone, PartialEq, Eq)]
pub struct PointOfInterest {
    pub id: String,
    pub route_option_id: String,
    pub name: String,
    pub description: Option<String>,
    pub category: Option<String>,
    pub coordinates: String,
    pub created_at: SqlDateTime,
}

/// The mathematical value of a [`PointOfInterest`].
pub struct PointOfInterestView {
    pub id: Seq<char>,
    pub route_option_id: Seq<char>,
    pub name: Seq<char>,
    pub description: Option<Seq<char>>,
    pub category: Option<Seq<char>>,
    pub coordinates: Seq<char>,
    pub created_at: SqlDateTime,
}

impl DeepView for PointOfInterest {
    type V = PointOfInterestView;

    open spec fn deep_view(&self) -> PointOfInterestView {
        PointOfInterestView {
            id: self.id@,
            route_option_id: self.route_option_id@,
            name: self.name@,
            description: self.description.deep_view(),
            category: self.category.deep_view(),
            coordinates: self.coordinates@,
            created_at: self.created_at,
        }
    }
}

impl View for PointOfInterest {
    type V = PointOfInterestView;

    open spec fn view(&self) -> PointOfInterestView {
        self.deep_view()
    }
}

/// The fields of a point of interest that is to be stored.
#[derive(Debug, Clone, PartialEq, Eq)]
pub struct NewPointOfInterest {
    pub route_option_id: String,
    pub name: String,
    pub description: Option<String>,
    pub category: Option<String>,
    pub coordinates: String,
}

/// The mathematical value of a [`NewPointOfInterest`].
pub struct NewPointOfInterestView {
    pub route_option_id: Seq<char>,
    pub name: Seq<char>,
    pub description: Option<Seq<char>>,
    pub category: Option<Seq<char>>,
    pub coordinates: Seq<char>,
}

impl DeepView for NewPointOfInterest {
    type V = NewPointOfInterestView;

    open spec fn deep_view(&self) -> NewPointOfInterestView {
        NewPointOfInterestView {
            route_option_id: self.route_option_id@,
            name: self.name@,
            description: self.description.deep_view(),
            category: self.category.deep_view(),
            coordinates: self.coordinates@,
        }
    }
}

impl View for NewPointOfInterest {
    type V = NewPointOfInterestView;

    open spec fn view(&self) -> NewPointOfInterestView {
        self.deep_view()
    }
}

/// A partial update of a point of interest.
#[derive(Debug, Clone, PartialEq, Eq)]
pub struct UpdatePointOfInterest {
    pub name: Option<String>,
    pub description: Option<String>,
    pub category: Option<String>,
}

/// The mathematical value of an [`UpdatePointOfInterest`].
pub struct UpdatePointOfInterestView {
    pub name: Option<Seq<char>>,
    pub description: Option<Seq<char>>,
    pub category: Option<Seq<char>>,
}

impl DeepView for UpdatePointOfInterest {
    type V = UpdatePointOfInterestView;

    open spec fn deep_view(&self) -> UpdatePointOfInterestView {
        UpdatePointOfInterestView {
            name: self.name.deep_view(),
            description: self.description.deep_view(),
            category: self.category.deep_view(),
        }
    }
}

impl View for UpdatePointOfInterest {
    type V = UpdatePointOfInterestView;

    open spec fn view(&self) -> UpdatePointOfInterestView {
        self.deep_view()
    }
}

/// The point of interest that a row of seven cells holds.
pub open spec fn poi_of_row(row: Seq<SqlValueView>) -> Result<
    PointOfInterestView,
    StoreErrorView,
> {
    match text_at_spec(row, 0) {
        Err(e) => Err(e),
        Ok(id) => match text_at_spec(row, 1) {
            Err(e) => Err(e),
            Ok(route_option_id) => match text_at_spec(row, 2) {
                Err(e) => Err(e),
                Ok(name) => match optional_text_at_spec(row, 3) {
                    Err(e) => Err(e),
                    Ok(description) => match optional_text_at_spec(row, 4) {
                        Err(e) => Err(e),
                        Ok(category) => match text_at_spec(row, 5) {
                            Err(e) => Err(e),
                            Ok(coordinates) => match instant_at_spec(row, 6) {
                                Err(e) => Err(e),
                                Ok(created_at) => Ok(
                                    PointOfInterestView {
                                        id,
                                        route_option_id,
                                        name,
                                        description,
                                        category,
                                        coordinates,
                                        created_at,
                                    },
                                ),
                            },
                        },
                    },
                },
            },
        },
    }
}

/// The point of interest that the first of some rows holds; none where there is no row.
pub open spec fn first_poi(rows: Seq<Seq<SqlValueView>>) -> Result<
    Option<PointOfInterestView>,
    StoreErrorView,
> {
    if rows.len() == 0 {
        Ok(None)
    } else {
        match poi_of_row(rows[0]) {
            Ok(poi) => Ok(Some(poi)),
            Err(e) => Err(e),
        }
    }
}

/// The points of interest that some rows hold, in their order: the error of
/// the first row that holds none, where there is such a row.
pub open spec fn pois_of_rows(rows: Seq<Seq<SqlValueView>>) -> Result<
    Seq<PointOfInterestView>,
    StoreErrorView,
>
    decreases rows.len(),
{
    if rows.len() == 0 {
        Ok(Seq::empty())
    } else {
        match pois_of_rows(rows.drop_last()) {
            Err(e) => Err(e),
            Ok(pois) => match poi_of_row(rows.last()) {
                Err(e) => Err(e),
                Ok(poi) => Ok(pois.push(poi)),
            },
        }
    }
}

/// The point of interest that a lookup found, given the rows that the store gave.
pub open spec fn found_poi(rows: Rows) -> Result<Option<PointOfInterestView>, StoreErrorView> {
    match rows {
        Ok(rows) => first_poi(rows),
        Err(e) => Err(e),
    }
}

/// The points of interest that a listing found, given the rows that the store gave.
pub open spec fn listed_pois(rows: Rows) -> Result<Seq<PointOfInterestView>, StoreErrorView> {
    match rows {
        Ok(rows) => pois_of_rows(rows),
        Err(e) => Err(e),
    }
}

/// True where the exchanges after `before` stored these points of interest
/// and did nothing else: one insertion for each, in their order, each with success.
pub open spec fn stored_pois(
    before: Seq<Exchange>,
    after: Seq<Exchange>,
    pois: Seq<PointOfInterestView>,
) -> bool {
    &&& continues(before, after)
    &&& after.len() == before.len() + pois.len()
    &&& forall|i: int|
        0 <= i < pois.len() ==> {
            let exchange = #[trigger] after[before.len() + i];
            &&& exchange is Ran
            &&& poi_insertion(pois[i]) == Ok::<StatementView, StoreErrorView>(exchange->ran)
            &&& exchange->changed is Ok
        }
}

/// True where the exchanges after `before` stored some points of interest and
/// then met the refusal of one more insertion, which ended the work.
pub open spec fn stored_pois_until_refused(
    before: Seq<Exchange>,
    after: Seq<Exchange>,
    e: StoreErrorView,
) -> bool {
    after.len() > before.len() && refused_once(after.drop_last(), after, INSERT_POI@, e)
        && exists|pois: Seq<PointOfInterestView>| #[trigger]
        stored_pois(before, after.drop_last(), pois)
}

/// The end points and the waypoints of a route that a row of three cells holds.
pub open spec fn positions_of_row(row: Seq<SqlValueView>) -> Result<
    (Seq<char>, Seq<char>, Option<Seq<char>>),
    StoreErrorView,
> {
    match text_at_spec(row, 0) {
        Err(e) => Err(e),
        Ok(start) => match text_at_spec(row, 1) {
            Err(e) => Err(e),
            Ok(end) => match optional_text_at_spec(row, 2) {
                Err(e) => Err(e),
                Ok(waypoints) => Ok((start, end, waypoints)),
            },
        },
    }
}

/// True of what generating points of interest for a route that is looked up
/// returns, given the exchanges that it made. The first exchange asks for the
/// positions of the route. Where that fails, its failure is returned; where
/// it gives no row, `Ok` holds no point; where the first row cannot be read,
/// that is the failure; and in these three cases nothing more is exchanged.
/// Else `Ok` holds `count` points generated along the positions of that row,
/// each stored by one insertion after the lookup, and a failure is the
/// refusal by the store of one of these insertions, which ended the work.
pub open spec fn is_poi_generation(
    before: Seq<Exchange>,
    after: Seq<Exchange>,
    route_id: Seq<char>,
    count: nat,
    res: Result<Seq<PointOfInterestView>, StoreErrorView>,
) -> bool {
    &&& continues(before, after)
    &&& after.len() > before.len()
    &&& nth_since(before, after, 0) is Fetched
    &&& nth_since(before, after, 0)->asked == keyed(SELECT_ROUTE_POSITIONS@, route_id)
    &&& match nth_since(before, after, 0)->rows {
        Err(e) => after.len() == before.len() + 1 && res == Err::<
            Seq<PointOfInterestView>,
            StoreErrorView,
        >(e),
        Ok(rows) => if rows.len() == 0 {
            after.len() == before.len() + 1 && res == Ok::<
                Seq<PointOfInterestView>,
                StoreErrorView,
            >(Seq::empty())
        } else {
            match positions_of_row(rows[0]) {
                Err(e) => after.len() == before.len() + 1 && res == Err::<
                    Seq<PointOfInterestView>,
                    StoreErrorView,
                >(e),
                Ok((start, end, waypoints)) => match res {
                    Ok(pois) => {
                        &&& pois.len() == count
                        &&& is_generated_pois(pois, route_id, start, end, waypoints)
                        &&& stored_pois(after.take(before.len() as int + 1), after, pois)
                    },
                    Err(e) => e is Engine && stored_pois_until_refused(
                        after.take(before.len() as int + 1),
                        after,
                        e,
                    ),
                },
            }
        },
    }
}

/// The point of interest that storing `fields` under `id` at the instant `at` makes.
pub open spec fn created_poi(id: Seq<char>, fields: NewPointOfInterestView, at: SqlDateTime) ->
    PointOfInterestView {
    PointOfInterestView {
        id,
        route_option_id: fields.route_option_id,
        name: fields.name,
        description: fields.description,
        category: fields.category,
        coordinates: fields.coordinates,
        created_at: at,
    }
}

/// The fields that a stored point of interest was made of.
pub open spec fn poi_fields_of(poi: PointOfInterestView) -> NewPointOfInterestView {
    NewPointOfInterestView {
        route_option_id: poi.route_option_id,
        name: poi.name,
        description: poi.description,
        category: poi.category,
        coordinates: poi.coordinates,
    }
}

/// The point of interest after a partial update: each present field of the
/// update replaces its own; the identifier, the route and the position stay.
pub open spec fn updated_poi(poi: PointOfInterestView, update: UpdatePointOfInterestView) ->
    PointOfInterestView {
    PointOfInterestView {
        name: match update.name {
            Some(name) => name,
            None => poi.name,
        },
        description: match update.description {
            Some(description) => Some(description),
            None => poi.description,
        },
        category: match update.category {
            Some(category) => Some(category),
            None => poi.category,
        },
        ..poi
    }
}

/// The statement that stores a new point of interest: its seven fields in
/// the order of the columns.
pub open spec fn poi_insertion(poi: PointOfInterestView) -> Result<StatementView, StoreErrorView> {
    match to_sql_spec(poi.created_at) {
        Err(e) => Err(e),
        Ok(created_at) => Ok(
            StatementView {
                sql: INSERT_POI@,
                params: seq![
                    SqlValueView::Text(poi.id),
                    SqlValueView::Text(poi.route_option_id),
                    SqlValueView::Text(poi.name),
                    optional_text_cell(poi.description),
                    optional_text_cell(poi.category),
                    SqlValueView::Text(poi.coordinates),
                    created_at,
                ],
            },
        ),
    }
}

/// The statement that stores the changeable fields of a point of interest
/// under its identifier: name, description, category.
pub open spec fn poi_modification(poi: PointOfInterestView) -> StatementView {
    StatementView {
        sql: UPDATE_POI@,
        params: seq![
            SqlValueView::Text(poi.name),
            optional_text_cell(poi.description),
            optional_text_cell(poi.category),
            SqlValueView::Text(poi.id),
        ],
    }
}

/// The generated name of a category with the word at `word` of its list.
pub open spec fn poi_name(category: int, word: int) -> Seq<char> {
    NAME_OPENINGS[category]@ + NAME_WORDS[category][word]@ + NAME_ENDINGS[category]@
}

/// The generated description of a category with the word at `word` of its list.
pub open spec fn poi_description(category: int, word: int) -> Seq<char> {
    DESCRIPTION_OPENINGS[category]@ + DESCRIPTION_WORDS[category][word]@
        + DESCRIPTION_ENDINGS[category]@
}

/// The fields of a point of interest of a category at a position, with the
/// words chosen for its name and its description.
pub open spec fn synthesized_poi(
    route_id: Seq<char>,
    category: int,
    name_word: int,
    description_word: int,
    coordinates: Seq<char>,
) -> NewPointOfInterestView {
    NewPointOfInterestView {
        route_option_id: route_id,
        name: poi_name(category, name_word),
        description: Some(poi_description(category, description_word)),
        category: Some(CATEGORIES[category]@),
        coordinates,
    }
}

/// Where the point at position `index` of `count` may lie: the first at the
/// start of the route, the last at its end, each other one at one of the
/// route's waypoints or, where the route has none, anywhere on the globe.
pub open spec fn is_placed(
    coordinates: Seq<char>,
    index: nat,
    count: nat,
    start: Seq<char>,
    end: Seq<char>,
    waypoints: Option<Seq<char>>,
) -> bool {
    if index == 0 {
        coordinates == start
    } else if index == count - 1 {
        coordinates == end
    } else {
        match waypoints {
            Some(list) => split_spec(list, ';').contains(coordinates),
            None => is_coordinate(coordinates),
        }
    }
}

/// True of the fields of a point of interest that the generator may make at
/// position `index` of `count` for a route.
pub open spec fn is_generated_poi(
    fields: NewPointOfInterestView,
    route_id: Seq<char>,
    index: nat,
    count: nat,
    start: Seq<char>,
    end: Seq<char>,
    waypoints: Option<Seq<char>>,
) -> bool {
    &&& is_placed(fields.coordinates, index, count, start, end, waypoints)
    &&& exists|category: int, name_word: int, description_word: int|
        0 <= category < 10 && 0 <= name_word < 5 && 0 <= description_word < 5 && fields
            == #[trigger] synthesized_poi(
            route_id,
            category,
            name_word,
            description_word,
            fields.coordinates,
        )
}

/// True of the points of interest that the generator may make for a route:
/// each generated for its position among them.
pub open spec fn is_generated_pois(
    pois: Seq<PointOfInterestView>,
    route_id: Seq<char>,
    start: Seq<char>,
    end: Seq<char>,
    waypoints: Option<Seq<char>>,
) -> bool {
    forall|i: int|
        0 <= i < pois.len() ==> is_generated_poi(
            poi_fields_of(#[trigger] pois[i]),
            route_id,
            i as nat,
            pois.len(),
            start,
            end,
            waypoints,
        )
}

/// Once a prefix of the rows fails, every longer prefix fails with the same error.
proof fn lemma_pois_error_stays(rows: Seq<Seq<SqlValueView>>, n: int)
    requires
        0 <= n <= rows.len(),
        pois_of_rows(rows.take(n)) is Err,
    ensures
        pois_of_rows(rows) == pois_of_rows(rows.take(n)),
    decreases rows.len() - n,
{
    if n == rows.len() {
        assert(rows.take(n) =~= rows);
    } else {
        assert(rows.take(n + 1).drop_last() =~= rows.take(n));
        lemma_pois_error_stays(rows, n + 1);
    }
}

impl NewPointOfInterest {
    /// The fields of a point of interest of a category at a position, with the
    /// words chosen for its name and its description.
    pub fn synthesize(
        route_id: &str,
        category: usize,
        name_word: usize,
        description_word: usize,
        coordinates: String,
    ) -> (fields: NewPointOfInterest)
        requires
            category < 10,
            name_word < 5,
            description_word < 5,
        ensures
            fields@ == synthesized_poi(
                route_id@,
                category as int,
                name_word as int,
                description_word as int,
                coordinates@,
            ),
    {
        let mut name = String::from_str(NAME_OPENINGS[category]);
        name.append(NAME_WORDS[category][name_word]);
        name.append(NAME_ENDINGS[category]);
        let mut description = String::from_str(DESCRIPTION_OPENINGS[category]);
        description.append(DESCRIPTION_WORDS[category][description_word]);
        description.append(DESCRIPTION_ENDINGS[category]);
        NewPointOfInterest {
            route_option_id: String::from_str(route_id),
            name,
            description: Some(description),
            category: Some(String::from_str(CATEGORIES[category])),
            coordinates,
        }
    }
}

impl PointOfInterest {
    /// Reads a point of interest from a row.
    pub fn from_row(row: &Vec<SqlValue>) -> (res: Result<PointOfInterest, StoreError>)
        ensures
            outcome(res) == poi_of_row(row.deep_view()),
            res matches Err(e) ==> e is MissingColumn || e is InvalidColumnType,
    {
        let id = text_at(row, 0)?;
        let route_option_id = text_at(row, 1)?;
        let name = text_at(row, 2)?;
        let description = optional_text_at(row, 3)?;
        let category = optional_text_at(row, 4)?;
        let coordinates = text_at(row, 5)?;
        let created_at = instant_at(row, 6)?;
        Ok(
            PointOfInterest {
                id,
                route_option_id,
                name,
                description,
                category,
                coordinates,
                created_at,
            },
        )
    }

    /// Reads the point of interest of the first row, if there is a row.
    pub fn first(rows: &Vec<Vec<SqlValue>>) -> (res: Result<Option<PointOfInterest>, StoreError>)
        ensures
            outcome(res) == first_poi(rows.deep_view()),
    {
        if rows.len() == 0 {
            Ok(None)
        } else {
            match PointOfInterest::from_row(&rows[0]) {
                Ok(poi) => Ok(Some(poi)),
                Err(e) => Err(e),
            }
        }
    }

    /// Reads the points of interest of all rows, in their order.
    pub fn all(rows: &Vec<Vec<SqlValue>>) -> (res: Result<Vec<PointOfInterest>, StoreError>)
        ensures
            outcome(res) == pois_of_rows(rows.deep_view()),
            res matches Err(e) ==> e is MissingColumn || e is InvalidColumnType,
    {
        let mut pois: Vec<PointOfInterest> = Vec::new();
        let mut i: usize = 0;
        assert(rows.deep_view().take(0) =~= Seq::<Seq<SqlValueView>>::empty());
        assert(pois.deep_view() =~= Seq::<PointOfInterestView>::empty());
        while i < rows.len()
            invariant
                i <= rows.len(),
                pois_of_rows(rows.deep_view().take(i as int)) == Ok::<
                    Seq<PointOfInterestView>,
                    StoreErrorView,
                >(pois.deep_view()),
            decreases rows.len() - i,
        {
            let ghost before = rows.deep_view().take(i as int);
            let ghost after = rows.deep_view().take(i + 1);
            let ghost all = rows.deep_view();
            assert(after.drop_last() =~= before);
            assert(after.last() == rows[i as int].deep_view());
            match PointOfInterest::from_row(&rows[i]) {
                Ok(poi) => {
                    let ghost earlier = pois.deep_view();
                    let ghost added = poi.deep_view();
                    pois.push(poi);
                    assert(pois.deep_view() =~= earlier.push(added));
                },
                Err(e) => {
                    proof {
                        lemma_pois_error_stays(all, i + 1);
                    }
                    return Err(e);
                },
            }
            i = i + 1;
        }
        assert(rows.deep_view().take(rows.len() as int) =~= rows.deep_view());
        Ok(pois)
    }

    /// The point of interest that `fields` make under `id` at the instant `at`.
    pub fn build(id: String, fields: &NewPointOfInterest, at: SqlDateTime) -> (poi:
        PointOfInterest)
        ensures
            poi@ == created_poi(id@, fields@, at),
    {
        PointOfInterest {
            id,
            route_option_id: fields.route_option_id.clone(),
            name: fields.name.clone(),
            description: copy_optional(&fields.description),
            category: copy_optional(&fields.category),
            coordinates: fields.coordinates.clone(),
            created_at: at,
        }
    }

    /// This point of interest after the partial update `update`.
    pub fn updated(&self, update: &UpdatePointOfInterest) -> (poi: PointOfInterest)
        ensures
            poi@ == updated_poi(self@, update@),
    {
        PointOfInterest {
            id: self.id.clone(),
            route_option_id: self.route_option_id.clone(),
            name: replaced(&self.name, &update.name),
            description: replaced_optional(&self.description, &update.description),
            category: replaced_optional(&self.category, &update.category),
            coordinates: self.coordinates.clone(),
            created_at: self.created_at,
        }
    }

    /// The statement that stores this point of interest as a new record.
    pub fn insertion(&self) -> (res: Result<Statement, StoreError>)
        ensures
            outcome(res) == poi_insertion(self@),
    {
        let created_at = self.created_at.to_sql()?;
        let ghost cells = seq![
            SqlValueView::Text(self.id@),
            SqlValueView::Text(self.route_option_id@),
            SqlValueView::Text(self.name@),
            optional_text_cell(self.description.deep_view()),
            optional_text_cell(self.category.deep_view()),
            SqlValueView::Text(self.coordinates@),
            created_at@,
        ];
        let mut params: Vec<SqlValue> = Vec::new();
        params.push(text(self.id.as_str()));
        params.push(text(self.route_option_id.as_str()));
        params.push(text(self.name.as_str()));
        params.push(optional_text(&self.description));
        params.push(optional_text(&self.category));
        params.push(text(self.coordinates.as_str()));
        params.push(created_at);
        assert(params.deep_view() =~= cells);
        Ok(Statement { sql: INSERT_POI, params })
    }

    /// The statement that stores the changeable fields of this point of
    /// interest under its identifier.
    pub fn modification(&self) -> (statement: Statement)
        ensures
            statement@ == poi_modification(self@),
    {
        let mut params: Vec<SqlValue> = Vec::new();
        params.push(text(self.name.as_str()));
        params.push(optional_text(&self.description));
        params.push(optional_text(&self.category));
        params.push(text(self.id.as_str()));
        assert(params.deep_view() =~= poi_modification(self@).params);
        Statement { sql: UPDATE_POI, params }
    }

    /// Stores a point of interest of `new_poi` under a drawn identifier,
    /// created now, with the statement of [`PointOfInterest::insertion`], which
    /// is the one exchange with the store.
    pub fn create(store: &mut Store, new_poi: &NewPointOfInterest) -> (res: Result<
        PointOfInterest,
        StoreError,
    >)
        ensures
            res matches Ok(poi) ==> {
                &&& poi@ == created_poi(poi.id@, new_poi@, poi.created_at)
                &&& poi_insertion(poi@) is Ok
                &&& ran_once(old(store).trail(), final(store).trail(), poi_insertion(poi@)->Ok_0)
                &&& last_changed(final(store).trail()) is Ok
            },
            res matches Err(e) ==> e is Engine && refused_once(
                old(store).trail(),
                final(store).trail(),
                INSERT_POI@,
                e@,
            ),
    {
        let poi = PointOfInterest::build(new_id(), new_poi, now());
        let statement = match poi.insertion() {
            Ok(statement) => statement,
            Err(e) => {
                return Err(e);
            },
        };
        match store.run(&statement) {
            Ok(_) => Ok(poi),
            Err(e) => Err(e),
        }
    }

    /// Looks a point of interest up by identifier: asks `SELECT_POI_BY_ID`
    /// once and reads the first row.
    pub fn find_by_id(store: &mut Store, id: &str) -> (res: Result<
        Option<PointOfInterest>,
        StoreError,
    >)
        ensures
            asked_once(old(store).trail(), final(store).trail(), keyed(SELECT_POI_BY_ID@, id@)),
            outcome(res) == found_poi(last_rows(final(store).trail())),
            res matches Err(e) ==> is_read_failure(e),
    {
        let rows = store.fetch(&Statement::keyed(SELECT_POI_BY_ID, id))?;
        PointOfInterest::first(&rows)
    }

    /// The points of interest stored for a route: asks `SELECT_POIS_BY_ROUTE`
    /// once and reads every row.
    pub fn find_by_route_option_id(store: &mut Store, route_option_id: &str) -> (res: Result<
        Vec<PointOfInterest>,
        StoreError,
    >)
        ensures
            asked_once(
                old(store).trail(),
                final(store).trail(),
                keyed(SELECT_POIS_BY_ROUTE@, route_option_id@),
            ),
            outcome(res) == listed_pois(last_rows(final(store).trail())),
            res matches Err(e) ==> is_read_failure(e),
    {
        let rows = store.fetch(&Statement::keyed(SELECT_POIS_BY_ROUTE, route_option_id))?;
        PointOfInterest::all(&rows)
    }

    /// Applies a partial update and stores the result under this point's
    /// identifier with the statement of [`PointOfInterest::modification`],
    /// which is the one exchange with the store.
    pub fn update(&self, store: &mut Store, update: &UpdatePointOfInterest) -> (res: Result<
        PointOfInterest,
        StoreError,
    >)
        ensures
            ran_once(
                old(store).trail(),
                final(store).trail(),
                poi_modification(updated_poi(self@, update@)),
            ),
            outcome(res) == match last_changed(final(store).trail()) {
                Ok(_) => Ok::<PointOfInterestView, StoreErrorView>(updated_poi(self@, update@)),
                Err(e) => Err::<PointOfInterestView, StoreErrorView>(e),
            },
            res matches Err(e) ==> e is Engine,
    {
        let poi = self.updated(update);
        match store.run(&poi.modification()) {
            Ok(_) => Ok(poi),
            Err(e) => Err(e),
        }
    }

    /// Deletes the point of interest with this identifier: runs `DELETE_POI`
    /// once; true where a record went.
    pub fn delete(store: &mut Store, id: &str) -> (res: Result<bool, StoreError>)
        ensures
            ran_once(old(store).trail(), final(store).trail(), keyed(DELETE_POI@, id@)),
            outcome(res) == removed(last_changed(final(store).trail())),
            res matches Err(e) ==> e is Engine,
    {
        let changed = store.run(&Statement::keyed(DELETE_POI, id))?;
        Ok(changed > 0)
    }

    /// Deletes the points of interest of a route: runs `DELETE_POIS_BY_ROUTE`
    /// once; `Ok` holds how many went.
    pub fn delete_by_route_option_id(store: &mut Store, route_option_id: &str) -> (res: Result<
        usize,
        StoreError,
    >)
        ensures
            ran_once(
                old(store).trail(),
                final(store).trail(),
                keyed(DELETE_POIS_BY_ROUTE@, route_option_id@),
            ),
            outcome(res) == last_changed(final(store).trail()),
            res matches Err(e) ==> e is Engine,
    {
        store.run(&Statement::keyed(DELETE_POIS_BY_ROUTE, route_option_id))
    }

    /// Chooses the position of the point at `index` of `count` along a route.
    pub fn place(index: usize, count: usize, start: &str, end: &str, waypoints: &Option<String>) -> (
        coordinates: String)
        requires
            index < count,
        ensures
            is_placed(
                coordinates@,
                index as nat,
                count as nat,
                start@,
                end@,
                waypoints.deep_view(),
            ),
    {
        if index == 0 {
            String::from_str(start)
        } else if index == count - 1 {
            String::from_str(end)
        } else {
            match waypoints {
                Some(list) => {
                    let points = split(list.as_str(), ';');
                    let chosen = pick(points.len());
                    let coordinates = points[chosen].clone();
                    assert(views(points@)[chosen as int] == coordinates@);
                    coordinates
                },
                None => random_coordinate(),
            }
        }
    }

    /// Draws the fields of the point at position `index` of `count` along a route.
    pub fn draw_fields(
        route_id: &str,
        index: usize,
        count: usize,
        start: &str,
        end: &str,
        waypoints: &Option<String>,
    ) -> (fields: NewPointOfInterest)
        requires
            index < count,
        ensures
            is_generated_poi(
                fields@,
                route_id@,
                index as nat,
                count as nat,
                start@,
                end@,
                waypoints.deep_view(),
            ),
    {
        let coordinates = PointOfInterest::place(index, count, start, end, waypoints);
        let category = pick(10);
        let name_word = pick(5);
        let description_word = pick(5);
        let fields = NewPointOfInterest::synthesize(
            route_id,
            category,
            name_word,
            description_word,
            coordinates,
        );
        assert(fields@ == synthesized_poi(
            route_id@,
            category as int,
            name_word as int,
            description_word as int,
            fields@.coordinates,
        ));
        fields
    }

    /// Generates and stores `count` points of interest for a route with the
    /// given end points and waypoints. `Ok` holds all `count` of them in order,
    /// each naming the route, and each was stored by one insertion, these
    /// being all the exchanges with the store; the first refusal of the store
    /// ends the work with its error.
    pub fn generate_for(
        store: &mut Store,
        route_option_id: &str,
        start: &str,
        end: &str,
        waypoints: &Option<String>,
        count: usize,
    ) -> (res: Result<Vec<PointOfInterest>, StoreError>)
        ensures
            continues(old(store).trail(), final(store).trail()),
            res matches Ok(pois) ==> {
                &&& pois.len() == count
                &&& is_generated_pois(
                    pois.deep_view(),
                    route_option_id@,
                    start@,
                    end@,
                    waypoints.deep_view(),
                )
                &&& stored_pois(old(store).trail(), final(store).trail(), pois.deep_view())
            },
            res matches Err(e) ==> e is Engine && stored_pois_until_refused(
                old(store).trail(),
                final(store).trail(),
                e@,
            ),
    {
        let mut pois: Vec<PointOfInterest> = Vec::new();
        let mut i: usize = 0;
        proof {
            lemma_continues_itself(store.trail());
        }
        while i < count
            invariant
                i <= count,
                pois.len() == i,
                stored_pois(old(store).trail(), store.trail(), pois.deep_view()),
                forall|j: int|
                    0 <= j < i ==> is_generated_poi(
                        poi_fields_of(#[trigger] pois.deep_view()[j]),
                        route_option_id@,
                        j as nat,
                        count as nat,
                        start@,
                        end@,
                        waypoints.deep_view(),
                    ),
            decreases count - i,
        {
            let fields = PointOfInterest::draw_fields(
                route_option_id,
                i,
                count,
                start,
                end,
                waypoints,
            );
            let ghost before = store.trail();
            let ghost earlier = pois.deep_view();
            match PointOfInterest::create(store, &fields) {
                Err(e) => {
                    proof {
                        lemma_one_more_continues(before, store.trail());
                        lemma_continues_twice(old(store).trail(), before, store.trail());
                        assert(stored_pois(old(store).trail(), store.trail().drop_last(), earlier));
                    }
                    return Err(e);
                },
                Ok(poi) => {
                    let ghost added = poi.deep_view();
                    assert(poi_fields_of(added) == fields@);
                    pois.push(poi);
                    proof {
                        assert(pois.deep_view() =~= earlier.push(added));
                        lemma_one_more_continues(before, store.trail());
                        lemma_continues_twice(old(store).trail(), before, store.trail());
                        let after = store.trail();
                        let first = old(store).trail().len();
                        assert forall|k: int| 0 <= k < pois.deep_view().len() implies {
                            let exchange = #[trigger] after[first + k];
                            &&& exchange is Ran
                            &&& poi_insertion(pois.deep_view()[k]) == Ok::<
                                StatementView,
                                StoreErrorView,
                            >(exchange->ran)
                            &&& exchange->changed is Ok
                        } by {
                            if k < earlier.len() {
                                assert(after[first + k] == before[first + k]);
                            } else {
                                assert(after[first + k] == after.last());
                            }
                        }
                    }
                },
            }
            i = i + 1;
        }
        Ok(pois)
    }

    /// Reads the end points and the waypoints of a route from a row of
    /// `SELECT_ROUTE_POSITIONS`.
    pub fn positions(row: &Vec<SqlValue>) -> (res: Result<
        (String, String, Option<String>),
        StoreError,
    >)
        ensures
            outcome(res) == positions_of_row(row.deep_view()),
    {
        let start = text_at(row, 0)?;
        let end = text_at(row, 1)?;
        let waypoints = optional_text_at(row, 2)?;
        Ok((start, end, waypoints))
    }

    /// Generates and stores `count` points of interest for the route with this
    /// identifier, along the positions that the store holds for it: asks
    /// `SELECT_ROUTE_POSITIONS` first and then works as
    /// [`PointOfInterest::generate_for`] on the positions that the first row
    /// gives. Where the lookup fails its failure is returned; where the store
    /// holds no such route, nothing is generated and `Ok` holds none; where
    /// the row cannot be read, that is the failure. In these three cases the
    /// lookup is the only exchange with the store.
    pub fn generate_random_pois(store: &mut Store, route_option_id: &str, count: usize) -> (res:
        Result<Vec<PointOfInterest>, StoreError>)
        ensures
            is_poi_generation(
                old(store).trail(),
                final(store).trail(),
                route_option_id@,
                count as nat,
                outcome(res),
            ),
    {
        let ghost before = store.trail();
        let rows = match store.fetch(&Statement::keyed(SELECT_ROUTE_POSITIONS, route_option_id)) {
            Ok(rows) => rows,
            Err(e) => {
                proof {
                    lemma_one_more_continues(before, store.trail());
                }
                return Err(e);
            },
        };
        let ghost asked = store.trail();
        proof {
            lemma_one_more_continues(before, asked);
        }
        if rows.len() == 0 {
            let pois: Vec<PointOfInterest> = Vec::new();
            assert(pois.deep_view() =~= Seq::<PointOfInterestView>::empty());
            return Ok(pois);
        }
        assert(rows.deep_view()[0] == rows[0].deep_view());
        let positions = match PointOfInterest::positions(&rows[0]) {
            Ok(positions) => positions,
            Err(e) => {
                return Err(e);
            },
        };
        let res = PointOfInterest::generate_for(
            store,
            route_option_id,
            positions.0.as_str(),
            positions.1.as_str(),
            &positions.2,
            count,
        );
        proof {
            let after = store.trail();
            lemma_continues_twice(before, asked, after);
            crate::db::statement::lemma_continued_stays(asked, after, before.len() as int);
            assert(after.take(before.len() as int + 1) =~= asked);
        }
        res
    }
}

} // verus!
