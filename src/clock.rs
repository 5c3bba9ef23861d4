//! Timestamps, kept as nanoseconds since the Unix epoch (UTC), and their one
//! display format.
use vstd::prelude::*;

verus! {

/// The one pattern every listing and detail view renders timestamps with:
/// `YYYY/MM/DD hh:mm`.
pub const DATE_FORMATTING: &'static str = "%Y/%m/%d %H:%M";

/// The text that `DATE_FORMATTING` gives for the instant `nanos`
/// nanoseconds after the Unix epoch.
pub uninterp spec fn time_text(nanos: int) -> Seq<char>;

/// Relies on chrono's `DateTime::from_timestamp_nanos`, which accepts every
/// `i64`, and on `NaiveDateTime::format` with the display pattern; the text
/// depends on the instant alone.
#[verifier::external_body]
fn format_nanos(nanos: i64, pattern: &str) -> (r: String)
    requires
        pattern@ == DATE_FORMATTING@,
    ensures
        r@ == time_text(nanos as int),
{
    chrono::DateTime::from_timestamp_nanos(nanos).naive_utc().format(pattern).to_string()
}

/// Relies on chrono's `Utc::now` read through `timestamp_nanos_opt`, which
/// gives `None` for an instant outside the range of an `i64`.
#[verifier::external_body]
pub(crate) fn clock_now() -> (r: Option<i64>) {
    chrono::Utc::now().timestamp_nanos_opt()
}

/// The instant `nanos` as every view shows it.
pub fn display_time(nanos: i64) -> (r: String)
    ensures
        r@ == time_text(nanos as int),
{
    format_nanos(nanos, DATE_FORMATTING)
}

} // verus!
