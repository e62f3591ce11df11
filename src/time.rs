use vstd::prelude::*;

verus! {

/// Seconds since the Unix epoch, as used for clip timestamps and fetch windows.
pub type Timestamp = i64;

/// The RFC 3339 rendering, in whole seconds with the `Z` suffix, of the UTC
/// instant `secs` seconds after the Unix epoch.
pub uninterp spec fn rfc3339_of(secs: int) -> Seq<char>;

/// The latest instant of the year 9999, well inside the range of instants that
/// can be rendered.
pub const LAST_RENDERABLE_SECS: i64 = 253402300799;

/// Relies on `chrono::DateTime::<Utc>::from_timestamp` (which yields `None` only
/// for instants outside its supported years) and `DateTime::to_rfc3339_opts`.
#[verifier::external_body]
pub(crate) fn format_rfc3339(secs: i64) -> (r: Option<String>)
    ensures
        r is Some ==> r->0@ == rfc3339_of(secs as int),
        0 <= secs <= LAST_RENDERABLE_SECS ==> r is Some,
{
    match chrono::DateTime::<chrono::Utc>::from_timestamp(secs, 0) {
        Some(t) => Some(t.to_rfc3339_opts(chrono::SecondsFormat::Secs, true)),
        None => None,
    }
}

/// The instant, in whole seconds since the Unix epoch, that an RFC 3339 text
/// denotes; `None` for text that is not RFC 3339.
pub uninterp spec fn rfc3339_secs(s: Seq<char>) -> Option<i64>;

/// Relies on `chrono::DateTime::parse_from_rfc3339` and `DateTime::timestamp`:
/// the result depends on the text alone.
#[verifier::external_body]
pub(crate) fn parse_rfc3339(s: &str) -> (r: Option<Timestamp>)
    ensures
        r == rfc3339_secs(s@),
{
    match chrono::DateTime::parse_from_rfc3339(s) {
        Ok(t) => Some(t.timestamp()),
        Err(_) => None,
    }
}

/// The recording time of an entity's latest stored clip, as the storage
/// holds it (RFC 3339, or nothing when the entity has no clip). Text that is
/// not RFC 3339 is a storage error.
pub fn latest_clip_at(stored: Option<String>) -> (r: Result<Option<Timestamp>, ()>)
    ensures
        stored is None ==> r == Ok::<Option<Timestamp>, ()>(None),
        stored matches Some(s) ==> match rfc3339_secs(s@) {
            Some(t) => r == Ok::<Option<Timestamp>, ()>(Some(t)),
            None => r is Err,
        },
{
    match stored {
        None => Ok(None),
        Some(s) => match parse_rfc3339(s.as_str()) {
            Some(t) => Ok(Some(t)),
            None => Err(()),
        },
    }
}

/// Pause before a rate-limited request is retried: at least this many milliseconds.
pub const RETRY_DELAY_MIN_MS: u64 = 1000;

/// ... and fewer than this many.
pub const RETRY_DELAY_MAX_MS: u64 = 8000;

/// Relies on `rand::Rng::gen_range` over `thread_rng()`: a value drawn from the
/// half-open range, which must not be empty.
#[verifier::external_body]
pub(crate) fn random_in_range(low: u64, high: u64) -> (r: u64)
    requires
        low < high,
    ensures
        low <= r < high,
{
    rand::Rng::gen_range(&mut rand::thread_rng(), low..high)
}

/// Relies on `chrono::Utc::now`: the current wall-clock time, which it only
/// returns when the clock reads no earlier than the Unix epoch.
#[verifier::external_body]
pub(crate) fn now_secs() -> (r: Timestamp)
    ensures
        r >= 0,
{
    chrono::Utc::now().timestamp()
}

} // verus!
