//! Calendar text of instrument expiries and epoch time conversions.

use vstd::prelude::*;

verus! {

/// The date-only format patterns the exchanges name expiries with: `"%-d%b%y"`
/// (eg/ "24MAY24" after uppercasing) and `"%g%m%d"` (eg/ "240524").
pub open spec fn is_expiry_pattern(pattern: Seq<char>) -> bool {
    pattern == "%-d%b%y"@ || pattern == "%g%m%d"@
}

/// The text `chrono` renders the UTC calendar date of the instant `ms` milliseconds after
/// the UNIX epoch with `pattern`, or `None` where `ms` is outside `chrono`'s range.
pub uninterp spec fn spec_utc_date_text(ms: i64, pattern: Seq<char>) -> Option<Seq<char>>;

/// `chrono::DateTime::<Utc>::from_timestamp_millis(ms)` followed by
/// `date_naive().format(pattern).to_string()`. The contract claims only that the result
/// is a function of `ms` and `pattern` (named `spec_utc_date_text`); the calendar
/// arithmetic and the rendering are left unsaid. `pattern` is one of two valid patterns,
/// for which the rendering does not panic.
#[verifier::external_body]
pub(crate) fn utc_date_text(ms: i64, pattern: &str) -> (r: Option<String>)
    requires
        is_expiry_pattern(pattern@),
    ensures
        r matches Some(s) ==> spec_utc_date_text(ms, pattern@) == Some(s@),
        r is None ==> spec_utc_date_text(ms, pattern@) is None,
{
    match chrono::DateTime::<chrono::Utc>::from_timestamp_millis(ms) {
        Some(t) => Some(t.date_naive().format(pattern).to_string()),
        None => None,
    }
}

/// The current time in milliseconds since the UNIX epoch, as
/// `chrono::Utc::now().timestamp_millis()` reads the system clock. Nothing is stated of
/// the value: it is the clock's.
#[verifier::external_body]
pub(crate) fn utc_now_ms() -> (r: i64) {
    chrono::Utc::now().timestamp_millis()
}

/// An epoch time given in milliseconds, split into whole seconds and the remaining
/// nanoseconds (as `Duration::new(ms / 1000, (ms % 1000 * 1_000_000) as u32)`).
pub fn epoch_ms_to_secs_nanos(ms: u64) -> (r: (u64, u32))
    ensures
        r.0 == ms / 1000,
        r.1 == (ms % 1000) * 1_000_000,
        r.1 < 1_000_000_000,
        r.0 * 1000 + r.1 / 1_000_000 == ms,
{
    let secs = ms / 1000;
    let rem = ms % 1000;
    let nanos = (rem * 1_000_000) as u32;
    (secs, nanos)
}

} // verus!
