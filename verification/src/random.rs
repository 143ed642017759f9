//! Chance: fresh identifiers, bounded draws, and the coordinates made of them.

use crate::text::fixed6;
use crate::text::fixed6_spec;
use rand::Rng;
use uuid::Uuid;
use vstd::prelude::*;

verus! {

/// The largest latitude, in millionths of a degree; the smallest is its negative.
pub const LATITUDE_LIMIT: i64 = 90_000_000;

/// The largest longitude, in millionths of a degree; the smallest is its negative.
pub const LONGITUDE_LIMIT: i64 = 180_000_000;

/// rand's `Rng::gen_range` on the generator of the thread, over `lo..=hi`.
/// Which value is drawn is left open; it lies in the range.
#[verifier::external_body]
pub(crate) fn draw(lo: i64, hi: i64) -> (value: i64)
    requires
        lo <= hi,
    ensures
        lo <= value <= hi,
{
    rand::thread_rng().gen_range(lo..=hi)
}

/// uuid's `Uuid::new_v4`, written as text. Nothing is claimed of the identifier.
#[verifier::external_body]
pub(crate) fn new_id() -> String {
    Uuid::new_v4().to_string()
}

/// A position written as latitude, a comma, longitude, both with six decimal places.
pub open spec fn coordinate_spec(lat: int, lon: int) -> Seq<char> {
    fixed6_spec(lat) + seq![','] + fixed6_spec(lon)
}

/// True of the text of a position on the globe.
pub open spec fn is_coordinate(text: Seq<char>) -> bool {
    exists|lat: int, lon: int|
        -LATITUDE_LIMIT <= lat <= LATITUDE_LIMIT && -LONGITUDE_LIMIT <= lon <= LONGITUDE_LIMIT
            && text == #[trigger] coordinate_spec(lat, lon)
}

/// Writes a position, given in millionths of a degree.
pub fn coordinate(lat: i64, lon: i64) -> (text: String)
    ensures
        text@ == coordinate_spec(lat as int, lon as int),
{
    let mut text = fixed6(lat);
    text.append(",");
    let east = fixed6(lon);
    text.append(east.as_str());
    proof {
        reveal_strlit(",");
        assert(","@ =~= seq![',']);
    }
    text
}

/// A position drawn anywhere on the globe.
pub fn random_coordinate() -> (text: String)
    ensures
        is_coordinate(text@),
{
    let lat = draw(-LATITUDE_LIMIT, LATITUDE_LIMIT);
    let lon = draw(-LONGITUDE_LIMIT, LONGITUDE_LIMIT);
    coordinate(lat, lon)
}

/// An index drawn below `len`.
pub fn pick(len: usize) -> (index: usize)
    requires
        len > 0,
    ensures
        index < len,
{
    let last: u64 = (len - 1) as u64;
    let hi: i64 = if last > 0x7fff_ffff_ffff_ffffu64 {
        0x7fff_ffff_ffff_ffffi64
    } else {
        last as i64
    };
    let value = draw(0, hi);
    value as usize
}

} // verus!
