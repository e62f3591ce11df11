use vstd::prelude::*;

use crate::models::{into_standard_box_art_size, spec_standard_box_art, GameId};
use crate::window::{Conf, HOUR_SECS};

verus! {

/// A tracked category as the dashboard lists it.
pub struct Game {
    pub id: GameId,
    pub name: String,
    /// With the size placeholders filled in.
    pub box_art_url: String,
    /// Paused entities are left out of bulk runs.
    pub is_paused: bool,
}

impl Game {
    /// A stored category, its box art URL sized for display.
    pub fn from_stored(id: GameId, name: String, box_art_url: &str, is_paused: bool) -> (r: Game)
        ensures
            r.id == id,
            r.name == name,
            r.box_art_url@ == spec_standard_box_art(box_art_url@),
            r.is_paused == is_paused,
    {
        Game { id, name, box_art_url: into_standard_box_art_size(box_art_url), is_paused }
    }
}

/// The kind of a failed dashboard or storage request.
#[derive(Clone, Copy, Debug, PartialEq, Eq, Structural)]
pub enum AppErrorKind {
    /// Something is wrong with the request itself.
    BadRequest,
    AlreadyExists,
    NotFound,
    /// Anything else; reported as an internal error.
    Other,
}

impl Default for AppErrorKind {
    fn default() -> (r: AppErrorKind)
        ensures
            r == AppErrorKind::Other,
    {
        AppErrorKind::Other
    }
}

/// The column a clip listing is sorted by.
#[derive(Clone, Copy, Debug, PartialEq, Eq, Structural)]
pub enum ShowSortBy {
    RecordedAt,
    ViewCount,
}

impl ShowSortBy {
    /// The storage column of this sort order.
    pub fn column(self) -> (r: &'static str)
        ensures
            self == ShowSortBy::RecordedAt ==> r@ == "recorded_at"@,
            self == ShowSortBy::ViewCount ==> r@ == "view_count"@,
    {
        match self {
            ShowSortBy::RecordedAt => "recorded_at",
            ShowSortBy::ViewCount => "view_count",
        }
    }
}

/// Clips per page when the query names none.
pub const DEFAULT_PAGE_SIZE: usize = 50;

pub fn default_page_size() -> (r: usize)
    ensures
        r == DEFAULT_PAGE_SIZE,
{
    DEFAULT_PAGE_SIZE
}

pub fn default_sort_by() -> (r: ShowSortBy)
    ensures
        r == ShowSortBy::ViewCount,
{
    ShowSortBy::ViewCount
}

/// Filters, order and page of a clip listing.
pub struct ShowParams {
    pub page_size: usize,
    pub page_offset: usize,
    pub sort_direction_asc: bool,
    pub broadcaster_name: Option<String>,
    /// Part of the title to look for.
    pub title_like: Option<String>,
    /// Languages to keep; all when empty.
    pub langs: Vec<String>,
    pub sort_by: ShowSortBy,
    pub view_count_max: Option<usize>,
    pub view_count_min: usize,
    pub min_recorded_at: Option<String>,
    pub max_recorded_at: Option<String>,
}

impl ShowParams {
    /// The listing of the first page, by view count, descending, unfiltered.
    pub fn new() -> (r: ShowParams)
        ensures
            r.page_size == DEFAULT_PAGE_SIZE,
            r.page_offset == 0,
            !r.sort_direction_asc,
            r.broadcaster_name is None,
            r.title_like is None,
            r.langs@.len() == 0,
            r.sort_by == ShowSortBy::ViewCount,
            r.view_count_max is None,
            r.view_count_min == 0,
            r.min_recorded_at is None,
            r.max_recorded_at is None,
    {
        ShowParams {
            page_size: default_page_size(),
            page_offset: 0,
            sort_direction_asc: false,
            broadcaster_name: None,
            title_like: None,
            langs: Vec::new(),
            sort_by: default_sort_by(),
            view_count_max: None,
            view_count_min: 0,
            min_recorded_at: None,
            max_recorded_at: None,
        }
    }

    /// A listing needs a positive page size.
    pub fn validate(&self) -> (r: Result<(), AppErrorKind>)
        ensures
            r is Ok <==> self.page_size > 0,
            r is Err ==> r == Err::<(), AppErrorKind>(AppErrorKind::BadRequest),
    {
        if self.page_size == 0 {
            Err(AppErrorKind::BadRequest)
        } else {
            Ok(())
        }
    }

    /// The sort direction keyword of the listing.
    pub fn sort_direction(&self) -> (r: &'static str)
        ensures
            self.sort_direction_asc ==> r@ == "ASC"@,
            !self.sort_direction_asc ==> r@ == "DESC"@,
    {
        if self.sort_direction_asc {
            "ASC"
        } else {
            "DESC"
        }
    }
}

/// A request to fetch the clips of one entity now, with optional bounds in hours.
pub struct TriggerFetchClipsJob {
    pub recorded_at_most_hours_ago: Option<usize>,
    pub recorded_at_least_hours_ago: Option<usize>,
}

/// Hours to seconds; an absent or zero bound means no bound.
pub open spec fn spec_bound_secs(hours: Option<usize>) -> Option<u64> {
    match hours {
        Some(h) if h != 0 => Some((h * HOUR_SECS) as u64),
        _ => None,
    }
}

/// Whether both bounds, in seconds, fit the range of durations.
pub open spec fn bounds_fit(job: TriggerFetchClipsJob) -> bool {
    &&& job.recorded_at_most_hours_ago.unwrap_or(0) * HOUR_SECS <= u64::MAX
    &&& job.recorded_at_least_hours_ago.unwrap_or(0) * HOUR_SECS <= u64::MAX
}

/// The "at most" bound, where given, must lie further back than the "at least" one.
pub open spec fn spec_trigger_valid(job: TriggerFetchClipsJob) -> bool {
    let at_most = job.recorded_at_most_hours_ago.unwrap_or(0);
    let at_least = job.recorded_at_least_hours_ago.unwrap_or(0);
    at_most == 0 || at_most > at_least
}

fn bound_secs(hours: Option<usize>) -> (r: Option<u64>)
    requires
        hours.unwrap_or(0) * HOUR_SECS <= u64::MAX,
    ensures
        r == spec_bound_secs(hours),
{
    match hours {
        Some(h) => if h != 0 {
            Some(h as u64 * HOUR_SECS)
        } else {
            None
        },
        None => None,
    }
}

impl TriggerFetchClipsJob {
    /// The fetch bounds that the request asks for, or `BadRequest` when the
    /// "at most" bound does not lie further back than the "at least" one.
    pub fn to_conf(&self) -> (r: Result<Conf, AppErrorKind>)
        requires
            bounds_fit(*self),
        ensures
            r is Ok <==> spec_trigger_valid(*self),
            r matches Ok(conf) ==> {
                &&& conf.recorded_at_most_ago == spec_bound_secs(self.recorded_at_most_hours_ago)
                &&& conf.recorded_at_least_ago == spec_bound_secs(self.recorded_at_least_hours_ago)
            },
            r is Err ==> r == Err::<Conf, AppErrorKind>(AppErrorKind::BadRequest),
    {
        let at_most = match self.recorded_at_most_hours_ago {
            Some(h) => h,
            None => 0,
        };
        let at_least = match self.recorded_at_least_hours_ago {
            Some(h) => h,
            None => 0,
        };
        if at_most != 0 && at_most <= at_least {
            return Err(AppErrorKind::BadRequest);
        }
        Ok(Conf {
            recorded_at_most_ago: bound_secs(self.recorded_at_most_hours_ago),
            recorded_at_least_ago: bound_secs(self.recorded_at_least_hours_ago),
        })
    }
}

/// Changes to the global settings; an absent field is left as it is.
pub struct EditSettings {
    pub fetch_new_game_clips_cron: Option<String>,
    pub recorded_at_least_hours_ago: Option<i64>,
}

} // verus!
