//! Rendering of native epoch-second timestamps as calendar text.

use vstd::prelude::*;

verus! {

/// The last epoch second whose rendering this module promises: 9999-12-31
/// 23:59:59 UTC. chrono's calendar reaches much further; this bound is the
/// sub-range relied on here.
pub const TIMESTAMP_SECS_MAX: i64 = 253402300799;

/// The `%Y-%m-%d %H:%M:%S` rendering, in UTC, of an instant given as
/// non-leap seconds since the Unix epoch. A function of the seconds alone.
pub uninterp spec fn datetime_display_of(secs: i64) -> Seq<char>;

/// Relies on chrono's `DateTime::<Utc>::from_timestamp` and its `format` with
/// `%Y-%m-%d %H:%M:%S`: the rendering depends on the seconds value alone and
/// is built from numeric fields and literals, with no locale, error or panic
/// path for a representable date. `from_timestamp` is pure integer calendar
/// arithmetic returning `None` exactly when the day count falls outside the
/// representable calendar; every instant from the epoch through 9999-12-31
/// 23:59:59 lies well inside it.
#[verifier::external_body]
fn format_epoch_seconds(secs: i64) -> (r: Option<String>)
    ensures
        r matches Some(s) ==> s@ == datetime_display_of(secs),
        0 <= secs <= TIMESTAMP_SECS_MAX ==> r is Some,
{
    match chrono::DateTime::<chrono::Utc>::from_timestamp(secs, 0) {
        Some(dt) => Some(dt.naive_utc().format("%Y-%m-%d %H:%M:%S").to_string()),
        None => None,
    }
}

/// Renders an epoch-second instant as calendar text. Every instant from the
/// epoch through `TIMESTAMP_SECS_MAX` is rendered; an instant outside the
/// representable calendar range yields the empty string.
pub fn timestamp_display(secs: i64) -> (r: String)
    ensures
        r@ == datetime_display_of(secs) || r@ == Seq::<char>::empty(),
        0 <= secs <= TIMESTAMP_SECS_MAX ==> r@ == datetime_display_of(secs),
{
    match format_epoch_seconds(secs) {
        Some(s) => s,
        None => String::new(),
    }
}

} // verus!
