//! The time of day.

use crate::time::{
    format_rfc3339, is_real, law_time_reads_back, parsed_seconds, seconds_of, time_text, DateTime,
    END_OF_TIME,
};
use crate::text::opt_view;
use vstd::prelude::*;

verus! {

/// `SystemTime::now`, as nanoseconds since the start of 1970. The result is
/// whatever the machine's clock says: nothing is promised of it. A clock that
/// stands before 1970 is taken to stand at its start.
#[verifier::external_body]
fn unix_nanos() -> (r: u64) {
    std::time::SystemTime::now().duration_since(std::time::UNIX_EPOCH).unwrap_or_default().as_nanos() as u64
}

/// Did the clock say this, in nanoseconds since the start of 1970?
pub closed spec fn clock_said(nanos: u64) -> bool {
    call_ensures(unix_nanos, (), nanos)
}

/// The time of day, in nanoseconds since the start of 1970, as the clock says.
pub fn now_nanos() -> (r: u64)
    ensures
        clock_said(r),
{
    unix_nanos()
}

/// Is it the text of the time some minutes before another, given in
/// milliseconds? There is none before 1970 and none after 9999.
pub open spec fn is_minutes_before(text: Option<Seq<char>>, now_ms: u64, minutes: u64) -> bool {
    let then = now_ms - minutes * 60_000;
    if then < 0 || then / 1000 >= END_OF_TIME {
        text is None
    } else {
        text matches Some(s) && exists|t: DateTime| #[trigger]
            is_real(t) && seconds_of(t) == then / 1000 && s == time_text(t, (then % 1000) as nat)
    }
}

/// The text of the time some minutes before another.
pub fn minutes_before(now_ms: u64, minutes: u64) -> (r: Option<String>)
    ensures
        is_minutes_before(opt_view(r), now_ms, minutes),
{
    let back: u128 = minutes as u128 * 60_000;
    if back > now_ms as u128 {
        return None;
    }
    let then: u64 = now_ms - back as u64;
    if then / 1000 >= END_OF_TIME {
        return None;
    }
    Some(format_rfc3339(then))
}

/// The text of the time some minutes ago.
pub fn minutes_ago_rfc3339(minutes: u64) -> (r: Option<String>)
    ensures
        exists|nanos: u64| #[trigger]
            clock_said(nanos) && is_minutes_before(
                opt_view(r),
                (nanos / 1_000_000) as u64,
                minutes,
            ),
{
    minutes_before(now_nanos() / 1_000_000, minutes)
}

/// The time so many minutes before another is that many minutes before it; there is no
/// text only where it lies before 1970 or after 9999.
pub proof fn law_minutes_are_taken_off(now_ms: u64, minutes: u64, r: Option<String>)
    requires
        call_ensures(minutes_before, (now_ms, minutes), r),
    ensures
        r is None <==> now_ms < minutes * 60_000 || now_ms - minutes * 60_000
            >= 253_402_300_800_000,
        r matches Some(s) ==> parsed_seconds(s@) == Some((now_ms - minutes * 60_000) / 1000),
{
    if let Some(s) = r {
        let then = now_ms - minutes * 60_000;
        let t = choose|t: DateTime| #[trigger]
            is_real(t) && seconds_of(t) == then / 1000 && s@ == time_text(t, (then % 1000) as nat);
        law_time_reads_back(t, (then % 1000) as nat);
    }
}

} // verus!
