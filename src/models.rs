use vstd::prelude::*;

use crate::text::{decimal, prefix_before, replace_all, spec_decimal, spec_prefix_before, spec_replaced};

verus! {

/// Identifier of a tracked category ("game"), as assigned by the remote platform.
pub struct GameId(String);

impl View for GameId {
    type V = Seq<char>;

    closed spec fn view(&self) -> Seq<char> {
        self.0@
    }
}

impl GameId {
    pub fn new(id: String) -> (r: GameId)
        ensures
            r@ == id@,
    {
        GameId(id)
    }

    pub fn as_str(&self) -> (r: &str)
        ensures
            r@ == self@,
    {
        self.0.as_str()
    }

    /// A second id with the same text.
    pub fn copy(&self) -> (r: GameId)
        ensures
            r@ == self@,
    {
        GameId(self.0.clone())
    }

    /// Whether both ids have the same text.
    pub fn same_as(&self, other: &GameId) -> (r: bool)
        ensures
            r == (self@ == other@),
    {
        self.0 == other.0
    }

    pub fn into_string(self) -> (r: String)
        ensures
            r@ == self@,
    {
        self.0
    }
}

/// A category as found on the remote platform.
pub struct Game {
    pub id: GameId,
    pub name: String,
    /// May hold the placeholders `{width}` and `{height}`.
    pub box_art_url: String,
}

/// Width, in pixels, of box art shown by the dashboard.
pub const BOX_ART_WIDTH: u64 = 52 * 4;

/// Height, in pixels, of box art shown by the dashboard.
pub const BOX_ART_HEIGHT: u64 = 70 * 4;

pub open spec fn spec_standard_box_art(url: Seq<char>) -> Seq<char> {
    spec_replaced(
        spec_replaced(url, "{width}"@, spec_decimal(BOX_ART_WIDTH as nat)),
        "{height}"@,
        spec_decimal(BOX_ART_HEIGHT as nat),
    )
}

/// Fills the size placeholders of a box art URL with the standard size.
pub fn into_standard_box_art_size(box_art_url: &str) -> (r: String)
    ensures
        r@ == spec_standard_box_art(box_art_url@),
{
    proof {
        reveal_strlit("{width}");
        reveal_strlit("{height}");
    }
    let width = decimal(BOX_ART_WIDTH);
    let sized = replace_all(box_art_url, "{width}", width.as_str());
    let height = decimal(BOX_ART_HEIGHT);
    replace_all(sized.as_str(), "{height}", height.as_str())
}

/// Marks the part of a thumbnail URL that follows the clip's own path.
pub const PREVIEW_MARKER: &'static str = "-preview-";

/// Extension of a downloadable clip.
pub const VIDEO_EXTENSION: &'static str = ".mp4";

/// Where a clip can be downloaded: its thumbnail URL up to the preview
/// marker, with the video extension appended.
pub fn download_url(thumbnail_url: &str) -> (r: String)
    ensures
        r@ == spec_prefix_before(thumbnail_url@, PREVIEW_MARKER@) + VIDEO_EXTENSION@,
{
    prefix_before(thumbnail_url, PREVIEW_MARKER).concat(VIDEO_EXTENSION)
}

/// Metadata of one clip, as fetched from the remote platform.
pub struct Clip {
    /// Platform-assigned id, unique across all entities.
    pub id: String,
    pub broadcaster_id: String,
    /// Display name, case-insensitively equal to the broadcaster's login.
    pub broadcaster_name: String,
    /// Name of the user who recorded the clip.
    pub creator_name: String,
    /// When the clip was created on the platform (RFC 3339).
    pub recorded_at: String,
    /// Length of the clip in whole seconds.
    pub duration_secs: u64,
    /// Title as set by the creator: untrusted text.
    pub title: String,
    /// Where the clip's video can be downloaded.
    pub url: String,
    /// Thumbnail image of the clip.
    pub thumbnail_url: String,
    /// Views at the time of the fetch; a later fetch may report another value.
    pub view_count: u64,
    /// Language code, empty when the platform does not know it.
    pub lang: String,
    /// Entity the clip belongs to.
    pub game_id: String,
}

impl Clip {
    /// A clip as the remote side describes it; its download URL is derived
    /// from the thumbnail, and a negative view count reads as none.
    pub fn from_remote(
        id: String,
        broadcaster_id: String,
        broadcaster_name: String,
        creator_name: String,
        recorded_at: String,
        duration_secs: u64,
        title: String,
        thumbnail_url: String,
        view_count: i64,
        lang: String,
        game_id: String,
    ) -> (r: Clip)
        ensures
            r.id == id,
            r.broadcaster_id == broadcaster_id,
            r.broadcaster_name == broadcaster_name,
            r.creator_name == creator_name,
            r.recorded_at == recorded_at,
            r.duration_secs == duration_secs,
            r.title == title,
            r.url@ == spec_prefix_before(thumbnail_url@, PREVIEW_MARKER@) + VIDEO_EXTENSION@,
            r.thumbnail_url == thumbnail_url,
            r.view_count == if view_count < 0 { 0 } else { view_count as u64 },
            r.lang == lang,
            r.game_id == game_id,
    {
        let url = download_url(thumbnail_url.as_str());
        let view_count: u64 = if view_count < 0 {
            0
        } else {
            view_count as u64
        };
        Clip {
            id,
            broadcaster_id,
            broadcaster_name,
            creator_name,
            recorded_at,
            duration_secs,
            title,
            url,
            thumbnail_url,
            view_count,
            lang,
            game_id,
        }
    }

    /// Name of the downloaded file: `<broadcaster>_<id>.mp4`.
    pub fn file_name(&self) -> (r: String)
        ensures
            r@ == self.broadcaster_name@ + "_"@ + self.id@ + VIDEO_EXTENSION@,
    {
        self.broadcaster_name.clone().concat("_").concat(self.id.as_str()).concat(VIDEO_EXTENSION)
    }
}

} // verus!
