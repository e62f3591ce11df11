use vstd::prelude::*;

use crate::time::{format_rfc3339, rfc3339_of, Timestamp, LAST_RENDERABLE_SECS};

verus! {

/// Seconds in one hour.
pub const HOUR_SECS: u64 = 3600;

/// How far back the window of an entity without any stored clip reaches (two days).
pub const DEFAULT_LOOKBACK_SECS: u64 = 48 * HOUR_SECS;

/// Default staleness floor (eight hours): how old a clip must be before it is
/// requested, since view counts need time to mature; the same floor selects
/// the entities of a bulk run.
pub const DEFAULT_STALENESS_FLOOR_SECS: u64 = 8 * HOUR_SECS;

/// The two optional bounds of a fetch run, in seconds before "now".
#[derive(Debug)]
pub struct Conf {
    /// Only clips newer than this are fetched; overrides the last known clip.
    pub recorded_at_most_ago: Option<u64>,
    /// Only clips older than this are fetched.
    pub recorded_at_least_ago: Option<u64>,
}

/// The closed range of recording times requested for one entity.
#[derive(Clone, Copy, PartialEq, Eq, Structural, Debug)]
pub struct Window {
    pub start: Timestamp,
    pub end: Timestamp,
}

pub open spec fn fits_timestamp(x: int) -> bool {
    i64::MIN <= x <= i64::MAX
}

/// Start of the window: `now - at_most` when the override is given, else the
/// latest known clip, else the fixed lookback.
pub open spec fn spec_window_start(now: int, conf: Conf, latest: Option<Timestamp>) -> int {
    match conf.recorded_at_most_ago {
        Some(at_most) => now - at_most,
        None => match latest {
            Some(t) => t as int,
            None => now - DEFAULT_LOOKBACK_SECS,
        },
    }
}

/// The staleness floor: `recorded_at_least_ago`, or the default floor.
pub open spec fn spec_staleness_floor(conf: Conf) -> u64 {
    match conf.recorded_at_least_ago {
        Some(at_least) => at_least,
        None => DEFAULT_STALENESS_FLOOR_SECS,
    }
}

/// End of the window: the staleness floor before now.
pub open spec fn spec_window_end(now: int, conf: Conf) -> int {
    now - spec_staleness_floor(conf)
}

/// Whether the window of an entity can be computed at `now` without leaving
/// the range of timestamps.
pub open spec fn window_computable(now: int, conf: Conf, latest: Option<Timestamp>) -> bool {
    &&& fits_timestamp(spec_window_start(now, conf, latest))
    &&& fits_timestamp(spec_window_end(now, conf))
}

impl Conf {
    pub fn staleness_floor(&self) -> (r: u64)
        ensures
            r == spec_staleness_floor(*self),
    {
        match self.recorded_at_least_ago {
            Some(at_least) => at_least,
            None => DEFAULT_STALENESS_FLOOR_SECS,
        }
    }
}

/// Subtracts a duration from an instant; the caller ensures the result fits.
fn before(now: Timestamp, ago: u64) -> (r: Timestamp)
    requires
        fits_timestamp(now - ago),
    ensures
        r == now - ago,
{
    if ago <= i64::MAX as u64 {
        now - ago as i64
    } else {
        // `now` is then non-negative and `ago - now` fits below `i64::MAX + 1`
        let rest: u64 = ago - now as u64;
        0 - (rest - 1) as i64 - 1
    }
}

pub fn window_start(now: Timestamp, conf: &Conf, latest: Option<Timestamp>) -> (r: Timestamp)
    requires
        fits_timestamp(spec_window_start(now as int, *conf, latest)),
    ensures
        r == spec_window_start(now as int, *conf, latest),
{
    match conf.recorded_at_most_ago {
        Some(at_most) => before(now, at_most),
        None => match latest {
            Some(t) => t,
            None => before(now, DEFAULT_LOOKBACK_SECS),
        },
    }
}

pub fn window_end(now: Timestamp, conf: &Conf) -> (r: Timestamp)
    requires
        fits_timestamp(spec_window_end(now as int, *conf)),
    ensures
        r == spec_window_end(now as int, *conf),
{
    before(now, conf.staleness_floor())
}

/// The instant before which an entity's newest clip must have been recorded
/// for the entity to be selected for a bulk run started at `now`, as the
/// storage compares it; `None` where it cannot be computed or rendered.
pub fn stale_before(now: Timestamp, conf: &Conf) -> (r: Option<String>)
    ensures
        !fits_timestamp(now - spec_staleness_floor(*conf)) ==> r is None,
        0 <= now - spec_staleness_floor(*conf) <= LAST_RENDERABLE_SECS ==> r is Some,
        r matches Some(s) ==> s@ == rfc3339_of(now - spec_staleness_floor(*conf)),
{
    let floor = conf.staleness_floor();
    if !fits_before(now, floor) {
        return None;
    }
    format_rfc3339(before(now, floor))
}

/// Whether `now - ago` stays within the range of timestamps.
fn fits_before(now: Timestamp, ago: u64) -> (r: bool)
    ensures
        r == fits_timestamp(now - ago),
{
    (now as i128) - (ago as i128) >= i64::MIN as i128
}

/// Whether the window of an entity can be computed at `now`.
pub fn can_compute_window(now: Timestamp, conf: &Conf, latest: Option<Timestamp>) -> (r: bool)
    ensures
        r == window_computable(now as int, *conf, latest),
{
    let start_fits = match conf.recorded_at_most_ago {
        Some(at_most) => fits_before(now, at_most),
        None => match latest {
            Some(_) => true,
            None => fits_before(now, DEFAULT_LOOKBACK_SECS),
        },
    };
    let end_fits = fits_before(now, conf.staleness_floor());
    start_fits && end_fits
}

/// The fetch window of one entity at `now`.
pub fn window(now: Timestamp, conf: &Conf, latest: Option<Timestamp>) -> (r: Window)
    requires
        window_computable(now as int, *conf, latest),
    ensures
        r.start == spec_window_start(now as int, *conf, latest),
        r.end == spec_window_end(now as int, *conf),
{
    Window { start: window_start(now, conf, latest), end: window_end(now, conf) }
}

/// An entity with no stored clip, and no "at most" override, has its window
/// start the fixed lookback before now: it never lacks a start.
pub proof fn lemma_new_entity_starts_at_lookback(now: int, conf: Conf)
    requires
        conf.recorded_at_most_ago is None,
    ensures
        spec_window_start(now, conf, None) == now - DEFAULT_LOOKBACK_SECS,
{
}

/// An entity whose latest stored clip was recorded at `t`, with no "at most"
/// override, has its window start at `t`.
pub proof fn lemma_known_entity_starts_at_latest_clip(now: int, conf: Conf, t: Timestamp)
    requires
        conf.recorded_at_most_ago is None,
    ensures
        spec_window_start(now, conf, Some(t)) == t,
{
}

/// The window ends `recorded_at_least_ago` before now, or the default floor
/// before now, whatever the entity's latest clip: exactly at the staleness
/// threshold that selects the entities of a bulk run.
pub proof fn lemma_window_end_is_floor(now: int, conf: Conf)
    ensures
        spec_window_end(now, conf) == now - match conf.recorded_at_least_ago {
            Some(at_least) => at_least,
            None => DEFAULT_STALENESS_FLOOR_SECS,
        },
        spec_window_end(now, conf) == now - spec_staleness_floor(conf),
        spec_window_end(now, conf) <= now,
{
}

} // verus!
