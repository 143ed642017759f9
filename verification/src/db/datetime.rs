//! Instants as the storage layer holds them: seconds and nanoseconds since the
//! Unix epoch, written as RFC 3339 text and read back from text or from a
//! count of seconds.

use crate::db::statement::SqlValue;
use crate::db::statement::SqlValueView;
use crate::db::statement::StoreError;
use crate::db::statement::StoreErrorView;
use crate::views::outcome;
use chrono::DateTime;
use chrono::NaiveDateTime;
use chrono::Utc;
use vstd::prelude::*;

verus! {

/// The second form of text that is read as an instant, in UTC.
pub const NAIVE_FORMAT: &'static str = "%Y-%m-%d %H:%M:%S";

/// No instant lies later than this many seconds after the epoch.
pub const SECONDS_LIMIT: i64 = 185_604_722_870_400;

/// An instant in UTC: whole seconds since the Unix epoch and the nanoseconds after them.
#[derive(Debug, Clone, Copy, PartialEq, Eq, Structural)]
pub struct SqlDateTime {
    pub secs: i64,
    pub nanos: u32,
}

impl DeepView for SqlDateTime {
    type V = SqlDateTime;

    open spec fn deep_view(&self) -> SqlDateTime {
        *self
    }
}

/// An instant that may be absent, as a nullable column holds it.
#[derive(Debug, Clone, Copy, PartialEq, Eq, Structural)]
pub struct NullableSqlDateTime(pub Option<SqlDateTime>);

/// The cell is neither an instant nor, where that is allowed, `NULL`.
#[derive(Debug, Clone, Copy, PartialEq, Eq, Structural)]
pub struct InvalidType;

impl DeepView for InvalidType {
    type V = InvalidType;

    open spec fn deep_view(&self) -> InvalidType {
        *self
    }
}

/// Whether chrono's `DateTime::from_timestamp` has an instant for these two numbers.
pub uninterp spec fn representable(secs: i64, nanos: u32) -> bool;

/// What chrono's `DateTime::to_rfc3339` writes for the instant of these two numbers.
pub uninterp spec fn rfc3339_text(secs: i64, nanos: u32) -> Seq<char>;

/// The instant that chrono's `DateTime::parse_from_rfc3339` reads from a text, if it reads one.
pub uninterp spec fn rfc3339_instant(text: Seq<char>) -> Option<(i64, u32)>;

/// The instant that chrono's `NaiveDateTime::parse_from_str` reads from a text in
/// a format, taken as UTC, if it reads one.
pub uninterp spec fn naive_instant(text: Seq<char>, format: Seq<char>) -> Option<(i64, u32)>;

/// chrono's `Utc::now`, as seconds and nanoseconds. The clock decides the
/// result. chrono builds it with `DateTime::from_timestamp`, which has an
/// instant only where the day of `secs`, counted from the year 1, fits in an
/// `i32`: so the result is representable and its seconds are bounded. Where
/// the clock of the machine stands before the epoch, or beyond the instants
/// that chrono has, `Utc::now` does not return; it takes no argument by which
/// a caller could leave that out.
#[verifier::external_body]
pub(crate) fn now() -> (instant: SqlDateTime)
    ensures
        representable(instant.secs, instant.nanos),
        instant.secs <= SECONDS_LIMIT,
{
    let t = Utc::now();
    SqlDateTime { secs: t.timestamp(), nanos: t.timestamp_subsec_nanos() }
}

/// chrono's `DateTime::from_timestamp` and, on the instant that it makes of
/// the two numbers, `DateTime::to_rfc3339`; none where it makes no instant.
#[verifier::external_body]
fn format_rfc3339(secs: i64, nanos: u32) -> (text: Option<String>)
    ensures
        text.is_some() == representable(secs, nanos),
        text matches Some(t) ==> t@ == rfc3339_text(secs, nanos),
{
    DateTime::from_timestamp(secs, nanos).map(|t| t.to_rfc3339())
}

/// chrono's `DateTime::parse_from_rfc3339`, the instant it reads given as
/// seconds and nanoseconds since the epoch.
#[verifier::external_body]
fn parse_rfc3339(text: &str) -> (instant: Option<SqlDateTime>)
    ensures
        match instant {
            Some(t) => rfc3339_instant(text@) == Some((t.secs, t.nanos)),
            None => rfc3339_instant(text@).is_none(),
        },
{
    DateTime::parse_from_rfc3339(text).ok().map(
        |t| SqlDateTime { secs: t.timestamp(), nanos: t.timestamp_subsec_nanos() },
    )
}

/// chrono's `NaiveDateTime::parse_from_str`, the date and time it reads taken
/// as UTC and given as seconds and nanoseconds since the epoch.
#[verifier::external_body]
fn parse_naive(text: &str, format: &str) -> (instant: Option<SqlDateTime>)
    ensures
        match instant {
            Some(t) => naive_instant(text@, format@) == Some((t.secs, t.nanos)),
            None => naive_instant(text@, format@).is_none(),
        },
{
    NaiveDateTime::parse_from_str(text, format).ok().map(
        |t| SqlDateTime { secs: t.and_utc().timestamp(), nanos: t.and_utc().timestamp_subsec_nanos() },
    )
}

/// The instant that a pair of a name stands for.
pub open spec fn instant_of(pair: Option<(i64, u32)>) -> Option<SqlDateTime> {
    match pair {
        Some((secs, nanos)) => Some(SqlDateTime { secs, nanos }),
        None => None,
    }
}

/// The instant that a cell holds. Text is read as RFC 3339 and, failing that,
/// in [`NAIVE_FORMAT`] as UTC; an integer is a count of seconds since the epoch;
/// every other cell holds no instant.
pub open spec fn column_result_spec(value: SqlValueView) -> Result<SqlDateTime, InvalidType> {
    match value {
        SqlValueView::Text(t) => match instant_of(rfc3339_instant(t)) {
            Some(instant) => Ok(instant),
            None => match instant_of(naive_instant(t, NAIVE_FORMAT@)) {
                Some(instant) => Ok(instant),
                None => Err(InvalidType),
            },
        },
        SqlValueView::Integer(i) => if i64::MIN <= i <= i64::MAX && representable(i as i64, 0) {
            Ok(SqlDateTime { secs: i as i64, nanos: 0 })
        } else {
            Err(InvalidType)
        },
        _ => Err(InvalidType),
    }
}

/// The cell that holds an instant: its RFC 3339 text.
pub open spec fn to_sql_spec(instant: SqlDateTime) -> Result<SqlValueView, StoreErrorView> {
    if representable(instant.secs, instant.nanos) {
        Ok(SqlValueView::Text(rfc3339_text(instant.secs, instant.nanos)))
    } else {
        Err(StoreErrorView::Timestamp)
    }
}

impl SqlDateTime {
    /// The instant `secs` seconds and `nanos` nanoseconds after the epoch, where there is one.
    pub fn from_timestamp(secs: i64, nanos: u32) -> (instant: Option<SqlDateTime>)
        ensures
            instant == if representable(secs, nanos) {
                Some(SqlDateTime { secs, nanos })
            } else {
                None
            },
    {
        match format_rfc3339(secs, nanos) {
            Some(_) => Some(SqlDateTime { secs, nanos }),
            None => None,
        }
    }

    /// Reads an instant from a cell.
    pub fn column_result(value: &SqlValue) -> (res: Result<SqlDateTime, InvalidType>)
        ensures
            res == column_result_spec(value@),
    {
        match value {
            SqlValue::Text(text) => {
                match parse_rfc3339(text.as_str()) {
                    Some(instant) => Ok(instant),
                    None => match parse_naive(text.as_str(), NAIVE_FORMAT) {
                        Some(instant) => Ok(instant),
                        None => Err(InvalidType),
                    },
                }
            },
            SqlValue::Integer(secs) => {
                match SqlDateTime::from_timestamp(*secs, 0) {
                    Some(instant) => Ok(instant),
                    None => Err(InvalidType),
                }
            },
            _ => Err(InvalidType),
        }
    }

    /// Writes the instant as the cell that stores it.
    pub fn to_sql(&self) -> (res: Result<SqlValue, StoreError>)
        ensures
            outcome(res) == to_sql_spec(*self),
    {
        match format_rfc3339(self.secs, self.nanos) {
            Some(text) => Ok(SqlValue::Text(text)),
            None => Err(StoreError::Timestamp),
        }
    }
}

/// The instant that a nullable cell holds: none for `NULL`.
pub open spec fn nullable_column_result_spec(value: SqlValueView) -> Result<
    NullableSqlDateTime,
    InvalidType,
> {
    match value {
        SqlValueView::Null => Ok(NullableSqlDateTime(None)),
        _ => match column_result_spec(value) {
            Ok(instant) => Ok(NullableSqlDateTime(Some(instant))),
            Err(e) => Err(e),
        },
    }
}

/// The cell that holds an instant that may be absent: `NULL` for none.
pub open spec fn nullable_to_sql_spec(instant: Option<SqlDateTime>) -> Result<
    SqlValueView,
    StoreErrorView,
> {
    match instant {
        Some(t) => to_sql_spec(t),
        None => Ok(SqlValueView::Null),
    }
}

impl NullableSqlDateTime {
    /// Reads an instant that may be absent from a cell.
    pub fn column_result(value: &SqlValue) -> (res: Result<NullableSqlDateTime, InvalidType>)
        ensures
            res == nullable_column_result_spec(value@),
    {
        match value {
            SqlValue::Null => Ok(NullableSqlDateTime(None)),
            _ => match SqlDateTime::column_result(value) {
                Ok(instant) => Ok(NullableSqlDateTime(Some(instant))),
                Err(e) => Err(e),
            },
        }
    }

    /// Writes the instant as the cell that stores it.
    pub fn to_sql(&self) -> (res: Result<SqlValue, StoreError>)
        ensures
            outcome(res) == nullable_to_sql_spec(self.0),
    {
        match self.0 {
            Some(instant) => instant.to_sql(),
            None => Ok(SqlValue::Null),
        }
    }
}

/// The cell at `index` read as an instant.
pub open spec fn instant_at_spec(row: Seq<SqlValueView>, index: int) -> Result<
    SqlDateTime,
    StoreErrorView,
> {
    if index < 0 || index >= row.len() {
        Err(StoreErrorView::MissingColumn(index))
    } else {
        match column_result_spec(row[index]) {
            Ok(instant) => Ok(instant),
            Err(_) => Err(StoreErrorView::InvalidColumnType(index)),
        }
    }
}

/// The cell at `index` read as an instant that may be absent.
pub open spec fn optional_instant_at_spec(row: Seq<SqlValueView>, index: int) -> Result<
    Option<SqlDateTime>,
    StoreErrorView,
> {
    if index < 0 || index >= row.len() {
        Err(StoreErrorView::MissingColumn(index))
    } else {
        match nullable_column_result_spec(row[index]) {
            Ok(instant) => Ok(instant.0),
            Err(_) => Err(StoreErrorView::InvalidColumnType(index)),
        }
    }
}

/// Reads the cell at `index` as an instant.
pub fn instant_at(row: &Vec<SqlValue>, index: usize) -> (res: Result<SqlDateTime, StoreError>)
    ensures
        outcome(res) == instant_at_spec(row.deep_view(), index as int),
{
    if index >= row.len() {
        return Err(StoreError::MissingColumn(index));
    }
    match SqlDateTime::column_result(&row[index]) {
        Ok(instant) => Ok(instant),
        Err(_) => Err(StoreError::InvalidColumnType(index)),
    }
}

/// Reads the cell at `index` as an instant that may be absent.
pub fn optional_instant_at(row: &Vec<SqlValue>, index: usize) -> (res: Result<
    Option<SqlDateTime>,
    StoreError,
>)
    ensures
        outcome(res) == optional_instant_at_spec(row.deep_view(), index as int),
{
    if index >= row.len() {
        return Err(StoreError::MissingColumn(index));
    }
    match NullableSqlDateTime::column_result(&row[index]) {
        Ok(instant) => Ok(instant.0),
        Err(_) => Err(StoreError::InvalidColumnType(index)),
    }
}

} // verus!
