//! Statements against the storage engine: the values that travel to and from
//! it, the error of the storage layer, and typed access to the cells of a row.

use crate::views::outcome;
use rusqlite::types::Value;
use rusqlite::types::ValueRef;
use rusqlite::Connection;
use rusqlite::Row;
use vstd::prelude::*;

verus! {

/// rusqlite's `Connection`: a handle that is carried to the engine; nothing is known of what it holds.
#[verifier::external_type_specification]
#[verifier::external_body]
pub struct ExConnection(Connection);

/// rusqlite's `Error`: carried from the engine to [`describe`]; nothing is known of what it holds.
#[verifier::external_type_specification]
#[verifier::external_body]
pub struct ExEngineError(rusqlite::Error);

/// rusqlite's `Row`: one row of a running query, read cell by cell through [`column`].
#[verifier::external_type_specification]
#[verifier::external_body]
pub struct ExRow<'stmt>(Row<'stmt>);

/// rusqlite's `Value`: what [`to_engine_value`] hands to the engine.
#[verifier::external_type_specification]
#[verifier::external_body]
pub struct ExValue(Value);

/// A value bound to a statement or read from a cell.
/// A floating-point cell is reported as `Real`, without its number.
#[derive(Debug, Clone, PartialEq, Eq)]
pub enum SqlValue {
    Null,
    Integer(i64),
    Real,
    Text(String),
    Blob(Vec<u8>),
}

/// The mathematical value of a [`SqlValue`].
pub enum SqlValueView {
    Null,
    Integer(int),
    Real,
    Text(Seq<char>),
    Blob(Seq<u8>),
}

impl DeepView for SqlValue {
    type V = SqlValueView;

    open spec fn deep_view(&self) -> SqlValueView {
        match self {
            SqlValue::Null => SqlValueView::Null,
            SqlValue::Integer(i) => SqlValueView::Integer(*i as int),
            SqlValue::Real => SqlValueView::Real,
            SqlValue::Text(s) => SqlValueView::Text(s@),
            SqlValue::Blob(b) => SqlValueView::Blob(b@),
        }
    }
}

impl View for SqlValue {
    type V = SqlValueView;

    open spec fn view(&self) -> SqlValueView {
        self.deep_view()
    }
}

/// Why the storage layer failed.
#[derive(Debug, Clone, PartialEq, Eq)]
pub enum StoreError {
    /// The engine refused or failed a statement; its own message is kept for the log.
    Engine(String),
    /// A row has no cell at this index.
    MissingColumn(usize),
    /// The cell at this index holds another kind of value than the column is read as.
    InvalidColumnType(usize),
    /// The password could not be hashed or checked; the hasher's message is kept.
    Hash(String),
    /// An instant that the storage format cannot express.
    Timestamp,
}

/// The mathematical value of a [`StoreError`].
pub enum StoreErrorView {
    Engine(Seq<char>),
    MissingColumn(int),
    InvalidColumnType(int),
    Hash(Seq<char>),
    Timestamp,
}

impl DeepView for StoreError {
    type V = StoreErrorView;

    open spec fn deep_view(&self) -> StoreErrorView {
        match self {
            StoreError::Engine(m) => StoreErrorView::Engine(m@),
            StoreError::MissingColumn(i) => StoreErrorView::MissingColumn(*i as int),
            StoreError::InvalidColumnType(i) => StoreErrorView::InvalidColumnType(*i as int),
            StoreError::Hash(m) => StoreErrorView::Hash(m@),
            StoreError::Timestamp => StoreErrorView::Timestamp,
        }
    }
}

impl View for StoreError {
    type V = StoreErrorView;

    open spec fn view(&self) -> StoreErrorView {
        self.deep_view()
    }
}

/// True of the failures that reading from the store can end in: the engine
/// failed, or a row is not of the shape that the record is read from.
pub open spec fn is_read_failure(e: StoreError) -> bool {
    e is Engine || e is MissingColumn || e is InvalidColumnType
}

/// The text that describes a storage failure in the log.
pub open spec fn message_spec(e: StoreErrorView) -> Seq<char> {
    match e {
        StoreErrorView::Engine(m) => m,
        StoreErrorView::MissingColumn(i) => "Invalid column index"@,
        StoreErrorView::InvalidColumnType(i) => "Invalid column type"@,
        StoreErrorView::Hash(m) => m,
        StoreErrorView::Timestamp => "Timestamp out of range"@,
    }
}

impl StoreError {
    /// The text that describes this failure in the log.
    pub fn message(&self) -> (text: String)
        ensures
            text@ == message_spec(self@),
    {
        match self {
            StoreError::Engine(m) => m.clone(),
            StoreError::MissingColumn(_) => String::from_str("Invalid column index"),
            StoreError::InvalidColumnType(_) => String::from_str("Invalid column type"),
            StoreError::Hash(m) => m.clone(),
            StoreError::Timestamp => String::from_str("Timestamp out of range"),
        }
    }
}

/// Converts a value of the library into rusqlite's `Value`, variant by
/// variant. `Real`, which carries no number, has no such value: the store
/// refuses a statement that holds one before anything is converted.
#[verifier::external_body]
fn to_engine_value(value: &SqlValue) -> Value
    requires
        !(value is Real),
{
    match value {
        SqlValue::Null => Value::Null,
        SqlValue::Integer(i) => Value::Integer(*i),
        SqlValue::Real => Value::Null,
        SqlValue::Text(s) => Value::Text(s.clone()),
        SqlValue::Blob(b) => Value::Blob(b.clone()),
    }
}

/// rusqlite's `Row::get_ref` of the cell at `index`, converted variant by
/// variant; a text cell is read with `ValueRef::as_str`, which gives an error
/// where the cell does not hold UTF-8. Nothing is claimed of the outcome,
/// which depends on what the row holds.
#[verifier::external_body]
fn column(row: &Row<'_>, index: usize) -> (res: Result<SqlValue, rusqlite::Error>) {
    let cell = row.get_ref(index)?;
    match cell {
        ValueRef::Null => Ok(SqlValue::Null),
        ValueRef::Integer(i) => Ok(SqlValue::Integer(i)),
        ValueRef::Real(_) => Ok(SqlValue::Real),
        ValueRef::Text(_) => Ok(SqlValue::Text(cell.as_str()?.to_string())),
        ValueRef::Blob(b) => Ok(SqlValue::Blob(b.to_vec())),
    }
}

/// What the store answers to a statement that holds a `Real` parameter.
pub const UNBOUND_REAL: &'static str = "A floating-point parameter cannot be bound";

/// True of parameters that can be bound to a statement: none is `Real`,
/// which carries no number.
pub open spec fn bindable(params: Seq<SqlValueView>) -> bool {
    forall|i: int| 0 <= i < params.len() ==> !(#[trigger] params[i] is Real)
}

/// Whether the parameters can be bound to a statement.
pub fn is_bindable(params: &Vec<SqlValue>) -> (able: bool)
    ensures
        able == bindable(params.deep_view()),
{
    let mut i: usize = 0;
    while i < params.len()
        invariant
            i <= params.len(),
            forall|k: int| 0 <= k < i ==> !(#[trigger] params.deep_view()[k] is Real),
        decreases params.len() - i,
    {
        assert(params.deep_view()[i as int] == params[i as int].deep_view());
        match &params[i] {
            SqlValue::Real => {
                return false;
            },
            _ => {},
        }
        i = i + 1;
    }
    true
}

/// The `Display` text of a rusqlite error.
#[verifier::external_body]
fn describe(error: &rusqlite::Error) -> String {
    error.to_string()
}

/// rusqlite's `Connection::execute`: runs one statement with the given
/// parameters and returns the number of rows it changed. Nothing is claimed of
/// the outcome, which depends on what is stored.
#[verifier::external_body]
fn execute(conn: &Connection, sql: &str, params: &Vec<SqlValue>) -> (res: Result<
    usize,
    rusqlite::Error,
>)
    requires
        bindable(params.deep_view()),
{
    conn.execute(sql, rusqlite::params_from_iter(params.iter().map(to_engine_value)))
}

/// rusqlite's `Connection::prepare` and `Statement::query_map`: runs one query
/// and returns its rows, each read by [`read_row`]. Nothing is claimed of the
/// outcome, which depends on what is stored.
#[verifier::external_body]
fn query(conn: &Connection, sql: &str, params: &Vec<SqlValue>) -> (res: Result<
    Vec<Vec<SqlValue>>,
    rusqlite::Error,
>)
    requires
        bindable(params.deep_view()),
{
    let mut stmt = conn.prepare(sql)?;
    let width = stmt.column_count();
    let values = rusqlite::params_from_iter(params.iter().map(to_engine_value));
    let rows = stmt.query_map(values, |row| read_row(row, width))?;
    rows.collect()
}

/// Reads the first `width` cells of a row of the engine, one call of
/// [`column`] for each, in their order; the first cell that the engine does
/// not give ends the work with the engine's error. Where no cell is asked
/// for, the engine is not asked and the row read is empty.
fn read_row(row: &Row<'_>, width: usize) -> (res: Result<Vec<SqlValue>, rusqlite::Error>)
    ensures
        res matches Ok(cells) ==> cells.len() == width,
        width == 0 ==> (res matches Ok(cells) && cells@ == Seq::<SqlValue>::empty()),
{
    let mut cells: Vec<SqlValue> = Vec::new();
    let mut i: usize = 0;
    while i < width
        invariant
            i <= width,
            cells.len() == i,
        decreases width - i,
    {
        match column(row, i) {
            Ok(cell) => cells.push(cell),
            Err(e) => {
                return Err(e);
            },
        }
        i = i + 1;
    }
    Ok(cells)
}

/// A statement with the values bound to its parameters, in their order.
#[derive(Debug, Clone, PartialEq, Eq)]
pub struct Statement {
    pub sql: &'static str,
    pub params: Vec<SqlValue>,
}

/// The mathematical value of a [`Statement`].
pub struct StatementView {
    pub sql: Seq<char>,
    pub params: Seq<SqlValueView>,
}

impl DeepView for Statement {
    type V = StatementView;

    open spec fn deep_view(&self) -> StatementView {
        StatementView { sql: self.sql@, params: self.params.deep_view() }
    }
}

impl View for Statement {
    type V = StatementView;

    open spec fn view(&self) -> StatementView {
        self.deep_view()
    }
}

impl Statement {
    /// A statement without parameters.
    pub fn plain(sql: &'static str) -> (statement: Statement)
        ensures
            statement@ == plain(sql@),
    {
        let statement = Statement { sql, params: Vec::new() };
        assert(statement.params.deep_view() =~= Seq::<SqlValueView>::empty());
        statement
    }

    /// A statement whose one parameter is a text.
    pub fn keyed(sql: &'static str, key: &str) -> (statement: Statement)
        ensures
            statement@ == keyed(sql@, key@),
    {
        let mut params: Vec<SqlValue> = Vec::new();
        params.push(text(key));
        let statement = Statement { sql, params };
        assert(statement.params.deep_view() =~= seq![SqlValueView::Text(key@)]);
        statement
    }
}

/// The statement without parameters.
pub open spec fn plain(sql: Seq<char>) -> StatementView {
    StatementView { sql, params: Seq::empty() }
}

/// The statement whose one parameter is a text.
pub open spec fn keyed(sql: Seq<char>, key: Seq<char>) -> StatementView {
    StatementView { sql, params: seq![SqlValueView::Text(key)] }
}

/// The rows that a query gave, or why it gave none.
pub type Rows = Result<Seq<Seq<SqlValueView>>, StoreErrorView>;

/// One exchange with the store: a statement that was handed to it, and what came back.
pub enum Exchange {
    /// A statement was run; the store changed so many rows, or failed.
    Ran { ran: StatementView, changed: Result<usize, StoreErrorView> },
    /// A query was asked; the store gave these rows, or failed.
    Fetched { asked: StatementView, rows: Rows },
}

/// The store as a conversation: a connection to the engine together with the
/// trail of the exchanges that were made over it. The trail is kept for the
/// contracts only: it says what was handed to the store and what came back,
/// so that what a function returns can be stated for every answer of the store.
pub struct Store<'a> {
    conn: &'a Connection,
    trail: Ghost<Seq<Exchange>>,
}

/// What the last exchange of a trail changed, where it ran a statement.
pub open spec fn last_changed(trail: Seq<Exchange>) -> Result<usize, StoreErrorView> {
    trail.last()->changed
}

/// What the last exchange of a trail gave, where it asked a query.
pub open spec fn last_rows(trail: Seq<Exchange>) -> Rows {
    trail.last()->rows
}

/// True where `after` continues `before`: nothing that was exchanged is forgotten.
pub open spec fn continues(before: Seq<Exchange>, after: Seq<Exchange>) -> bool {
    before.len() <= after.len() && after.take(before.len() as int) == before
}

/// The exchange at position `i` of what was exchanged after `before`.
pub open spec fn nth_since(before: Seq<Exchange>, after: Seq<Exchange>, i: int) -> Exchange {
    after[before.len() + i]
}

/// True where exactly one query was asked after `before`, with this statement.
pub open spec fn asked_once(
    before: Seq<Exchange>,
    after: Seq<Exchange>,
    statement: StatementView,
) -> bool {
    &&& after.len() == before.len() + 1
    &&& after.drop_last() == before
    &&& after.last() is Fetched
    &&& after.last()->asked == statement
}

/// True where exactly one statement was run after `before`, and it is this one.
pub open spec fn ran_once(
    before: Seq<Exchange>,
    after: Seq<Exchange>,
    statement: StatementView,
) -> bool {
    &&& after.len() == before.len() + 1
    &&& after.drop_last() == before
    &&& after.last() is Ran
    &&& after.last()->ran == statement
}

/// True where exactly one statement was run after `before`, it has this
/// text, and the store refused it with this error.
pub open spec fn refused_once(
    before: Seq<Exchange>,
    after: Seq<Exchange>,
    sql: Seq<char>,
    e: StoreErrorView,
) -> bool {
    &&& after.len() == before.len() + 1
    &&& after.drop_last() == before
    &&& after.last() is Ran
    &&& after.last()->ran.sql == sql
    &&& last_changed(after) == Err::<usize, StoreErrorView>(e)
}

/// Whether a deletion removed a record, given what the store answered.
pub open spec fn removed(changed: Result<usize, StoreErrorView>) -> Result<bool, StoreErrorView> {
    match changed {
        Ok(n) => Ok(n > 0),
        Err(e) => Err(e),
    }
}

/// Whether a statement was done, given what the store answered.
pub open spec fn done(changed: Result<usize, StoreErrorView>) -> Result<(), StoreErrorView> {
    match changed {
        Ok(_) => Ok(()),
        Err(e) => Err(e),
    }
}

/// Continuing is transitive.
pub proof fn lemma_continues_twice(first: Seq<Exchange>, second: Seq<Exchange>, third: Seq<Exchange>)
    requires
        continues(first, second),
        continues(second, third),
    ensures
        continues(first, third),
{
    assert(third.take(first.len() as int) =~= third.take(second.len() as int).take(
        first.len() as int,
    ));
}

/// What was exchanged stays where it was.
pub proof fn lemma_continued_stays(before: Seq<Exchange>, after: Seq<Exchange>, k: int)
    requires
        continues(before, after),
        0 <= k < before.len(),
    ensures
        after[k] == before[k],
{
    assert(after.take(before.len() as int)[k] == after[k]);
}

/// Every trail continues itself.
pub proof fn lemma_continues_itself(trail: Seq<Exchange>)
    ensures
        continues(trail, trail),
{
    assert(trail.take(trail.len() as int) =~= trail);
}

/// One exchange more continues the trail.
pub proof fn lemma_one_more_continues(before: Seq<Exchange>, after: Seq<Exchange>)
    requires
        after.len() == before.len() + 1,
        after.drop_last() == before,
    ensures
        continues(before, after),
        after[before.len() as int] == after.last(),
{
    assert(after.take(before.len() as int) =~= after.drop_last());
}

impl<'a> Store<'a> {
    /// The exchanges made so far, the first one first.
    pub closed spec fn trail(&self) -> Seq<Exchange> {
        self.trail@
    }

    /// A conversation over a connection, with nothing exchanged yet.
    pub fn new(conn: &'a Connection) -> (store: Store<'a>)
        ensures
            store.trail() == Seq::<Exchange>::empty(),
    {
        Store { conn, trail: Ghost(Seq::empty()) }
    }

    /// Runs a statement; `Ok` holds the number of rows it changed; a failure of
    /// the engine comes back as [`StoreError::Engine`] with the engine's
    /// message. A statement with a `Real` parameter is refused with
    /// [`UNBOUND_REAL`], and the engine is not asked. The exchange joins the trail.
    pub fn run(&mut self, statement: &Statement) -> (res: Result<usize, StoreError>)
        ensures
            final(self).trail() == old(self).trail().push(
                Exchange::Ran { ran: statement@, changed: outcome(res) },
            ),
            ran_once(old(self).trail(), final(self).trail(), statement@),
            res matches Err(e) ==> e is Engine,
            !bindable(statement@.params) ==> outcome(res) == Err::<usize, StoreErrorView>(
                StoreErrorView::Engine(UNBOUND_REAL@),
            ),
    {
        let res = if !is_bindable(&statement.params) {
            Err(StoreError::Engine(String::from_str(UNBOUND_REAL)))
        } else {
            match execute(self.conn, statement.sql, &statement.params) {
                Ok(changed) => Ok(changed),
                Err(e) => Err(StoreError::Engine(describe(&e))),
            }
        };
        self.trail = Ghost(self.trail@.push(Exchange::Ran { ran: statement@, changed: outcome(res) }));
        assert(self.trail().drop_last() =~= old(self).trail());
        res
    }

    /// Runs a query; `Ok` holds its rows in the order the engine gave them; a
    /// failure of the engine comes back as [`StoreError::Engine`] with the
    /// engine's message. A statement with a `Real` parameter is refused with
    /// [`UNBOUND_REAL`], and the engine is not asked. The exchange joins the trail.
    pub fn fetch(&mut self, statement: &Statement) -> (res: Result<Vec<Vec<SqlValue>>, StoreError>)
        ensures
            final(self).trail() == old(self).trail().push(
                Exchange::Fetched { asked: statement@, rows: outcome(res) },
            ),
            asked_once(old(self).trail(), final(self).trail(), statement@),
            res matches Err(e) ==> e is Engine,
            !bindable(statement@.params) ==> outcome(res) == Err::<
                Seq<Seq<SqlValueView>>,
                StoreErrorView,
            >(StoreErrorView::Engine(UNBOUND_REAL@)),
    {
        let res = if !is_bindable(&statement.params) {
            Err(StoreError::Engine(String::from_str(UNBOUND_REAL)))
        } else {
            match query(self.conn, statement.sql, &statement.params) {
                Ok(rows) => Ok(rows),
                Err(e) => Err(StoreError::Engine(describe(&e))),
            }
        };
        self.trail = Ghost(self.trail@.push(Exchange::Fetched { asked: statement@, rows: outcome(res) }));
        assert(self.trail().drop_last() =~= old(self).trail());
        res
    }

    /// Begins a transaction.
    pub fn begin(&mut self) -> (res: Result<(), StoreError>)
        ensures
            ran_once(old(self).trail(), final(self).trail(), plain(BEGIN@)),
            outcome(res) == done(last_changed(final(self).trail())),
            res matches Err(e) ==> e is Engine,
    {
        let statement = Statement::plain(BEGIN);
        let res = self.run(&statement);
        match res {
            Ok(_) => Ok(()),
            Err(e) => Err(e),
        }
    }

    /// Commits the transaction.
    pub fn commit(&mut self) -> (res: Result<(), StoreError>)
        ensures
            ran_once(old(self).trail(), final(self).trail(), plain(COMMIT@)),
            outcome(res) == done(last_changed(final(self).trail())),
            res matches Err(e) ==> e is Engine,
    {
        let statement = Statement::plain(COMMIT);
        let res = self.run(&statement);
        match res {
            Ok(_) => Ok(()),
            Err(e) => Err(e),
        }
    }

    /// Rolls the transaction back. A failure to do so is not reported: the
    /// failure that led here is.
    pub fn rollback(&mut self)
        ensures
            ran_once(old(self).trail(), final(self).trail(), plain(ROLLBACK@)),
    {
        let statement = Statement::plain(ROLLBACK);
        let _ = self.run(&statement);
    }
}

pub const BEGIN: &'static str = "BEGIN IMMEDIATE";

pub const COMMIT: &'static str = "COMMIT";

pub const ROLLBACK: &'static str = "ROLLBACK";

/// The cell at `index` read as text.
pub open spec fn text_at_spec(row: Seq<SqlValueView>, index: int) -> Result<
    Seq<char>,
    StoreErrorView,
> {
    if index < 0 || index >= row.len() {
        Err(StoreErrorView::MissingColumn(index))
    } else {
        match row[index] {
            SqlValueView::Text(s) => Ok(s),
            _ => Err(StoreErrorView::InvalidColumnType(index)),
        }
    }
}

/// The cell at `index` read as text that may be absent.
pub open spec fn optional_text_at_spec(row: Seq<SqlValueView>, index: int) -> Result<
    Option<Seq<char>>,
    StoreErrorView,
> {
    if index < 0 || index >= row.len() {
        Err(StoreErrorView::MissingColumn(index))
    } else {
        match row[index] {
            SqlValueView::Text(s) => Ok(Some(s)),
            SqlValueView::Null => Ok(None),
            _ => Err(StoreErrorView::InvalidColumnType(index)),
        }
    }
}

/// The cell at `index` read as an integer that may be absent.
pub open spec fn optional_integer_at_spec(row: Seq<SqlValueView>, index: int) -> Result<
    Option<i64>,
    StoreErrorView,
> {
    if index < 0 || index >= row.len() {
        Err(StoreErrorView::MissingColumn(index))
    } else {
        match row[index] {
            SqlValueView::Integer(i) => Ok(Some(i as i64)),
            SqlValueView::Null => Ok(None),
            _ => Err(StoreErrorView::InvalidColumnType(index)),
        }
    }
}

/// Reads the cell at `index` as text.
pub fn text_at(row: &Vec<SqlValue>, index: usize) -> (res: Result<String, StoreError>)
    ensures
        outcome(res) == text_at_spec(row.deep_view(), index as int),
{
    if index >= row.len() {
        return Err(StoreError::MissingColumn(index));
    }
    match &row[index] {
        SqlValue::Text(s) => Ok(s.clone()),
        _ => Err(StoreError::InvalidColumnType(index)),
    }
}

/// Reads the cell at `index` as text that may be absent.
pub fn optional_text_at(row: &Vec<SqlValue>, index: usize) -> (res: Result<
    Option<String>,
    StoreError,
>)
    ensures
        outcome(res) == optional_text_at_spec(row.deep_view(), index as int),
{
    if index >= row.len() {
        return Err(StoreError::MissingColumn(index));
    }
    match &row[index] {
        SqlValue::Text(s) => Ok(Some(s.clone())),
        SqlValue::Null => Ok(None),
        _ => Err(StoreError::InvalidColumnType(index)),
    }
}

/// Reads the cell at `index` as an integer that may be absent.
pub fn optional_integer_at(row: &Vec<SqlValue>, index: usize) -> (res: Result<
    Option<i64>,
    StoreError,
>)
    ensures
        outcome(res) == optional_integer_at_spec(row.deep_view(), index as int),
{
    if index >= row.len() {
        return Err(StoreError::MissingColumn(index));
    }
    match &row[index] {
        SqlValue::Integer(i) => Ok(Some(*i)),
        SqlValue::Null => Ok(None),
        _ => Err(StoreError::InvalidColumnType(index)),
    }
}

/// A text parameter.
pub fn text(value: &str) -> (cell: SqlValue)
    ensures
        cell@ == SqlValueView::Text(value@),
{
    SqlValue::Text(String::from_str(value))
}

/// The cell of a text that may be absent: `NULL` for none.
pub open spec fn optional_text_cell(value: Option<Seq<char>>) -> SqlValueView {
    match value {
        Some(s) => SqlValueView::Text(s),
        None => SqlValueView::Null,
    }
}

/// The cell of an integer that may be absent: `NULL` for none.
pub open spec fn optional_integer_cell(value: Option<i64>) -> SqlValueView {
    match value {
        Some(i) => SqlValueView::Integer(i as int),
        None => SqlValueView::Null,
    }
}

/// A text parameter that is `NULL` when absent.
pub fn optional_text(value: &Option<String>) -> (cell: SqlValue)
    ensures
        cell@ == optional_text_cell(value.deep_view()),
{
    match value {
        Some(s) => SqlValue::Text(s.clone()),
        None => SqlValue::Null,
    }
}

/// An integer parameter that is `NULL` when absent.
pub fn optional_integer(value: Option<i64>) -> (cell: SqlValue)
    ensures
        cell@ == optional_integer_cell(value),
{
    match value {
        Some(i) => SqlValue::Integer(i),
        None => SqlValue::Null,
    }
}

} // verus!
