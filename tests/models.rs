use clip_worker::dashboard::{
    default_page_size, default_sort_by, AppErrorKind, Game, ShowParams, ShowSortBy,
    TriggerFetchClipsJob,
};
use clip_worker::models::{download_url, into_standard_box_art_size, Clip, GameId};

#[test]
fn box_art_gets_standard_size() {
    assert_eq!(
        into_standard_box_art_size("https://static-cdn.jtvnw.net/ttv-boxart/55-{width}x{height}.jpg"),
        "https://static-cdn.jtvnw.net/ttv-boxart/55-208x280.jpg"
    );
    assert_eq!(into_standard_box_art_size("no placeholders"), "no placeholders");
    assert_eq!(into_standard_box_art_size("{width}{width}"), "208208");
}

#[test]
fn download_url_strips_preview_suffix() {
    assert_eq!(
        download_url("https://clips-media-assets2.twitch.tv/AT-cm%7C123-preview-480x272.jpg"),
        "https://clips-media-assets2.twitch.tv/AT-cm%7C123.mp4"
    );
    assert_eq!(download_url("plain"), "plain.mp4");
    assert_eq!(download_url(""), ".mp4");
}

#[test]
fn clip_file_name_joins_broadcaster_and_id() {
    let clip = Clip {
        id: "MoistUnsightlyBatteryTwitchRPG".to_string(),
        broadcaster_id: "1".to_string(),
        broadcaster_name: "Davaeorn".to_string(),
        creator_name: "x".to_string(),
        recorded_at: String::new(),
        duration_secs: 1,
        title: String::new(),
        url: String::new(),
        thumbnail_url: String::new(),
        view_count: 0,
        lang: String::new(),
        game_id: "55".to_string(),
    };
    assert_eq!(clip.file_name(), "Davaeorn_MoistUnsightlyBatteryTwitchRPG.mp4");
}

#[test]
fn game_id_round_trips_its_text() {
    let id = GameId::new("55".to_string());
    assert_eq!(id.as_str(), "55");
    assert_eq!(id.into_string(), "55".to_string());
}

#[test]
fn stored_game_gets_sized_box_art() {
    let g = Game::from_stored(GameId::new("9".to_string()), "Chess".to_string(), "x-{width}x{height}", true);
    assert_eq!(g.box_art_url, "x-208x280");
    assert!(g.is_paused);
    assert_eq!(g.name, "Chess");
}

#[test]
fn show_params_defaults_and_validation() {
    assert_eq!(default_page_size(), 50);
    assert_eq!(default_sort_by(), ShowSortBy::ViewCount);
    let mut p = ShowParams::new();
    assert_eq!(p.page_size, 50);
    assert_eq!(p.validate(), Ok(()));
    assert_eq!(p.sort_direction(), "DESC");
    p.sort_direction_asc = true;
    assert_eq!(p.sort_direction(), "ASC");
    p.page_size = 0;
    assert_eq!(p.validate(), Err(AppErrorKind::BadRequest));
    assert_eq!(ShowSortBy::RecordedAt.column(), "recorded_at");
    assert_eq!(ShowSortBy::ViewCount.column(), "view_count");
    assert_eq!(AppErrorKind::default(), AppErrorKind::Other);
}

#[test]
fn trigger_rejects_at_most_not_beyond_at_least() {
    let bad = TriggerFetchClipsJob { recorded_at_most_hours_ago: Some(2), recorded_at_least_hours_ago: Some(2) };
    assert!(matches!(bad.to_conf(), Err(AppErrorKind::BadRequest)));
    let ok = TriggerFetchClipsJob { recorded_at_most_hours_ago: Some(48), recorded_at_least_hours_ago: Some(2) };
    let conf = ok.to_conf().ok().unwrap();
    assert_eq!(conf.recorded_at_most_ago, Some(48 * 3600));
    assert_eq!(conf.recorded_at_least_ago, Some(7200));
    let open = TriggerFetchClipsJob { recorded_at_most_hours_ago: Some(0), recorded_at_least_hours_ago: None };
    let conf = open.to_conf().ok().unwrap();
    assert_eq!(conf.recorded_at_most_ago, None);
    assert_eq!(conf.recorded_at_least_ago, None);
}

#[test]
fn remote_clip_gets_download_url_and_non_negative_views() {
    let clip = Clip::from_remote(
        "EsteemedShinyAsteriskBibleThump".to_string(),
        "10".to_string(),
        "Davaeorn".to_string(),
        "viewer".to_string(),
        "2023-01-01T00:00:00Z".to_string(),
        27,
        "title".to_string(),
        "https://clips.example/AT-cm%7C9-preview-480x272.jpg".to_string(),
        -3,
        String::new(),
        "55".to_string(),
    );
    assert_eq!(clip.url, "https://clips.example/AT-cm%7C9.mp4");
    assert_eq!(clip.view_count, 0);
    assert_eq!(clip.duration_secs, 27);
    assert_eq!(clip.thumbnail_url, "https://clips.example/AT-cm%7C9-preview-480x272.jpg");
    assert!(clip.lang.is_empty());
    let popular = Clip::from_remote(
        "a".to_string(), "1".to_string(), "b".to_string(), "c".to_string(), String::new(), 1,
        String::new(), "t.jpg".to_string(), 1500, "en".to_string(), "55".to_string(),
    );
    assert_eq!(popular.view_count, 1500);
    assert_eq!(popular.url, "t.jpg.mp4");
}
