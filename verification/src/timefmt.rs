use vstd::prelude::*;
use crate::config::{MAX_DURATION_SECONDS, MAX_TIMESTAMP};

verus! {

/// The `%Y-%m-%dT%H:%M:%S` rendering of the timestamp `t`, as chrono
/// produces it for the UTC instant `t` seconds after the Unix epoch.
pub uninterp spec fn ts_display(t: int) -> Seq<char>;

/// Relies on chrono's `DateTime::from_timestamp`, which is documented to
/// return the UTC instant for every second count in its accepted range
/// (far wider than the range admitted here), and on its formatter with
/// the items `%Y-%m-%dT%H:%M:%S`, which render year through second of
/// that instant alone — no locale, zone or other machine state enters,
/// so the result is a function of `t`.
#[verifier::external_body]
pub(crate) fn format_timestamp(t: i64) -> (r: String)
    requires
        0 <= t <= MAX_TIMESTAMP + MAX_DURATION_SECONDS,
    ensures
        r@ == ts_display(t as int),
{
    match chrono::DateTime::from_timestamp(t, 0) {
        Some(dt) => dt.naive_utc().format("%Y-%m-%dT%H:%M:%S").to_string(),
        None => String::new(),
    }
}

} // verus!
