//! Days and times of day. A point in time is a number of seconds since the
//! beginning of 1970 on the clock that it is read from.
use vstd::prelude::*;

use crate::text::option_text;

verus! {

/// Month and day.
pub const DAY_PATTERN: &'static str = "%b %-d";

/// Hour and minute.
pub const CLOCK_PATTERN: &'static str = "%H:%M";

/// Month, day, hour and minute.
pub const MOMENT_PATTERN: &'static str = "%b %-d, %H:%M";

/// A point in time as `chrono` formats it by a pattern; `None` where its
/// calendar does not reach that far.
pub uninterp spec fn formatted(seconds: int, pattern: Seq<char>) -> Option<Seq<char>>;

/// `chrono::DateTime::from_timestamp` and `format`: the text depends on the
/// time and the pattern alone.
#[verifier::external_body]
pub(crate) fn format_time(seconds: i64, pattern: &str) -> (r: Option<String>)
    requires
        pattern@ == DAY_PATTERN@ || pattern@ == CLOCK_PATTERN@ || pattern@ == MOMENT_PATTERN@,
    ensures
        option_text(r) == formatted(seconds as int, pattern@),
{
    chrono::DateTime::from_timestamp(seconds, 0).map(|t| t.format(pattern).to_string())
}

/// The text of a point in time, empty beyond the calendar.
pub open spec fn time_text(seconds: int, pattern: Seq<char>) -> Seq<char> {
    match formatted(seconds, pattern) {
        Some(t) => t,
        None => Seq::empty(),
    }
}

/// The text of a point in time, empty beyond the calendar.
pub fn show_time(seconds: i64, pattern: &str) -> (r: String)
    requires
        pattern@ == DAY_PATTERN@ || pattern@ == CLOCK_PATTERN@ || pattern@ == MOMENT_PATTERN@,
    ensures
        r@ == time_text(seconds as int, pattern@),
{
    match format_time(seconds, pattern) {
        Some(t) => t,
        None => String::new(),
    }
}

/// The number of the day on which a point in time falls.
pub open spec fn day_number(seconds: int) -> int {
    seconds / 86_400
}

/// The number of the day on which a point in time falls.
pub fn day_of(seconds: i64) -> (r: i64)
    ensures
        r == day_number(seconds as int),
{
    if seconds >= 0 {
        seconds / 86_400
    } else {
        let before: i64 = -(seconds + 1);
        let whole: i64 = before / 86_400;
        assert(seconds as int / 86_400 == -whole - 1) by (nonlinear_arith)
            requires
                before == -(seconds + 1),
                whole == before / 86_400,
        ;
        -whole - 1
    }
}

} // verus!
