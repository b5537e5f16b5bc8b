//! UTC instants as text.
//!
//! An instant is a count of seconds since the Unix epoch with the nanoseconds
//! past that second. The calendar arithmetic and the formatting are chrono's.

use vstd::prelude::*;
use std::fmt::Write;

verus! {

/// The text that chrono writes for the UTC instant of `secs` seconds and
/// `nanos` nanoseconds after the Unix epoch under the strftime pattern
/// `pattern`; `None` for an instant that chrono cannot represent.
pub uninterp spec fn utc_text(secs: i64, nanos: u32, pattern: Seq<char>) -> Option<Seq<char>>;

/// Calls chrono's `DateTime::<Utc>::from_timestamp` and, on the instant it
/// returns, `DateTime::format` with `pattern`, and collects what the
/// formatter writes.
///
/// Trusted: the outcome depends on the three arguments alone, and is named
/// `utc_text`; the result is `None` exactly when `from_timestamp` rejects the
/// instant; the Unix epoch itself is never rejected. Nothing is claimed of the
/// text beyond its name. Where the pattern holds a specifier that chrono
/// does not know, its formatter reports an error and has written nothing, so
/// the text is empty.
#[verifier::external_body]
fn format_utc(secs: i64, nanos: u32, pattern: &str) -> (text: Option<String>)
    ensures
        match text {
            Some(t) => utc_text(secs, nanos, pattern@) == Some(t@),
            None => utc_text(secs, nanos, pattern@) is None,
        },
        secs == 0 && nanos == 0 ==> text is Some,
{
    let instant = chrono::DateTime::from_timestamp(secs, nanos)?;
    let mut text = String::new();
    let _ = write!(text, "{}", instant.format(pattern));
    Some(text)
}

/// The text of an instant under `pattern`, where an instant that cannot be
/// represented is replaced by the Unix epoch.
pub open spec fn rendered_utc(secs: i64, nanos: u32, pattern: Seq<char>) -> Seq<char> {
    match utc_text(secs, nanos, pattern) {
        Some(t) => t,
        None => utc_text(0, 0, pattern)->Some_0,
    }
}

/// Renders the instant of `secs` seconds and `nanos` nanoseconds after the
/// Unix epoch under the strftime pattern `pattern`. An instant that cannot be
/// represented is rendered as the Unix epoch.
pub fn render_utc(secs: i64, nanos: u32, pattern: &str) -> (text: String)
    ensures
        text@ == rendered_utc(secs, nanos, pattern@),
{
    match format_utc(secs, nanos, pattern) {
        Some(t) => t,
        None => format_utc(0, 0, pattern).unwrap(),
    }
}

/// The number of microseconds in a second.
pub const MICROS_PER_SECOND: i64 = 1_000_000;

/// The pattern of a decoded publication time: date and time of day with nine
/// digits of fractional seconds.
pub open spec fn published_pattern() -> Seq<char> {
    "%Y-%m-%dT%H:%M:%S.%f"@
}

/// The whole seconds of a count of microseconds, rounded down: the second
/// that the instant lies in, also before the epoch.
pub open spec fn whole_seconds(micros: i64) -> i64 {
    (micros / MICROS_PER_SECOND) as i64
}

/// The nanoseconds that a count of microseconds leaves over its whole
/// seconds: never negative, and less than one second.
pub open spec fn residual_nanos(micros: i64) -> u32 {
    ((micros % MICROS_PER_SECOND) * 1000) as u32
}

/// The text of a publication time stored as `micros` microseconds since the
/// Unix epoch: the text of that instant, before the epoch as well as after
/// it. Only an instant beyond the calendar is rendered as the Unix epoch.
pub open spec fn published_text(micros: i64) -> Seq<char> {
    rendered_utc(whole_seconds(micros), residual_nanos(micros), published_pattern())
}

/// Decodes a publication time stored as microseconds since the Unix epoch
/// into its textual form.
pub fn decode_published_at(micros: i64) -> (text: String)
    ensures
        text@ == published_text(micros),
{
    let quotient: i64 = micros / MICROS_PER_SECOND;
    let rest: i64 = micros % MICROS_PER_SECOND;
    // Division rounds towards zero: before the epoch a fraction of a second
    // belongs to the second below.
    let secs: i64 = if rest < 0 {
        quotient - 1
    } else {
        quotient
    };
    let left: i64 = if rest < 0 {
        rest + MICROS_PER_SECOND
    } else {
        rest
    };
    let nanos: u32 = (left * 1000) as u32;
    render_utc(secs, nanos, "%Y-%m-%dT%H:%M:%S.%f")
}

/// The instant that is rendered for a count of microseconds is the count
/// itself: seconds and nanoseconds together make exactly `micros`
/// microseconds, and the nanoseconds stay below one second. No digit of the
/// count is lost.
pub proof fn lemma_published_instant(micros: i64)
    ensures
        published_text(micros) == rendered_utc(
            whole_seconds(micros),
            residual_nanos(micros),
            published_pattern(),
        ),
        whole_seconds(micros) * 1_000_000_000 + residual_nanos(micros) == micros * 1000,
        residual_nanos(micros) < 1_000_000_000,
        residual_nanos(micros) % 1000 == 0,
{
}

/// Two counts of microseconds that are rendered from the same seconds and
/// nanoseconds are the same count: no two instants share one rendering
/// request.
pub proof fn lemma_published_instants_differ(a: i64, b: i64)
    requires
        whole_seconds(a) == whole_seconds(b),
        residual_nanos(a) == residual_nanos(b),
    ensures
        a == b,
{
    lemma_published_instant(a);
    lemma_published_instant(b);
}

} // verus!
