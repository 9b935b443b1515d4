//! Dates: which points in time there are, and which text they have.
use vstd::prelude::*;

use crate::clock::{on_calendar, rfc3339_text, Timestamp};
use crate::oapi::InputView;

verus! {

/// The calendar goes from the first second of the year -262143 to the last one of the
/// year 262142. Its seconds have a billion nanoseconds each, and the last one of a
/// minute may have a second billion, for a leap second.
pub proof fn law_calendar_has_these_points(secs: i64, nanos: u32)
    ensures
        on_calendar(secs, nanos) <==> {
            &&& -8334601228800 <= secs <= 8210266876799
            &&& nanos < 1_000_000_000 || (nanos < 2_000_000_000 && (secs as int) % 60 == 59)
        },
{
}

/// The text of a point in time is that of its second and its nanosecond, and an
/// inventory is listed with the text of the date at which it was read, or with none.
pub proof fn law_date_is_told_to_the_nanosecond(input: InputView, date: Timestamp)
    ensures
        date.spec_rfc3339() == rfc3339_text(date.spec_secs(), date.spec_nanos()),
        input.fetch_date == Some(date) ==> input.read_date() == Some(
            rfc3339_text(date.spec_secs(), date.spec_nanos()),
        ),
        input.fetch_date is None ==> input.read_date() is None,
{
}

} // verus!
