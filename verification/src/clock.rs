//! The wall clock, read through `chrono`, and the instant range of UTC date-times.
use vstd::prelude::*;

verus! {

/// Seconds since the Unix epoch of the latest UTC date-time (December 31, 262142, 23:59:59).
pub const LATEST_UTC_SECS: i64 = 8_210_266_876_799;

/// Nanoseconds in a second.
pub const NANOS_PER_SEC: i128 = 1_000_000_000;

/// `chrono::Utc::now()`, as whole seconds since the Unix epoch and the nanoseconds
/// past that second. The source builds it from `SystemTime::now()` measured from
/// the epoch (it panics when the system clock reads earlier than 1970) and
/// `DateTime::from_timestamp(.., subsec_nanos)` (it panics beyond the latest UTC
/// date-time); so the seconds lie between 0 and that date-time and the
/// nanoseconds below one second. Which instant it returns is the clock's business.
#[verifier::external_body]
fn utc_now() -> (r: (i64, u32))
    ensures
        0 <= r.0 <= LATEST_UTC_SECS,
        r.1 < 1_000_000_000,
{
    let now = chrono::Utc::now();
    (now.timestamp(), now.timestamp_subsec_nanos())
}

/// The current time in whole seconds since the Unix epoch.
pub fn now_secs() -> (s: i64)
    ensures
        0 <= s <= LATEST_UTC_SECS,
{
    utc_now().0
}

/// The instant of whole seconds and nanoseconds past the second, in nanoseconds.
pub open spec fn instant_of(secs: int, nanos: int) -> int {
    secs * NANOS_PER_SEC + nanos
}

/// An instant given as whole seconds and nanoseconds past the second, in
/// nanoseconds since the Unix epoch.
pub fn instant_nanos(secs: i64, nanos: u32) -> (n: i128)
    ensures
        n == instant_of(secs as int, nanos as int),
{
    secs as i128 * NANOS_PER_SEC + nanos as i128
}

/// The current time in nanoseconds since the Unix epoch: the instant that the
/// clock reads, as seconds and nanoseconds, converted by `instant_nanos`.
pub fn now_nanos() -> (n: i128)
    ensures
        exists|secs: int, nanos: int|
            0 <= secs <= LATEST_UTC_SECS && 0 <= nanos < NANOS_PER_SEC && n == #[trigger] instant_of(
                secs,
                nanos,
            ),
{
    let (s, ns) = utc_now();
    let n = instant_nanos(s, ns);
    n
}

/// The UTC calendar date of an instant, written `YYYY-MM-DD` as chrono's
/// `format("%Y-%m-%d")` writes it.
pub uninterp spec fn utc_date_text(secs: int) -> Seq<char>;

/// `DateTime::<Utc>::from_timestamp(secs, 0)` formatted with `"%Y-%m-%d"`. The
/// timestamp lies in chrono's range, so the date-time exists.
#[verifier::external_body]
fn format_utc_date(secs: i64) -> (r: String)
    requires
        0 <= secs <= LATEST_UTC_SECS,
    ensures
        r@ == utc_date_text(secs as int),
{
    chrono::DateTime::from_timestamp(secs, 0).expect("timestamp within chrono's range").format("%Y-%m-%d").to_string()
}

/// Today's UTC date, written `YYYY-MM-DD`: the date of the instant the clock reads.
pub fn today_text() -> (r: String)
    ensures
        exists|secs: int| 0 <= secs <= LATEST_UTC_SECS && r@ == #[trigger] utc_date_text(secs),
{
    let secs = now_secs();
    format_utc_date(secs)
}

} // verus!
