use clip_worker::models::Clip;
use clip_worker::store::ClipStore;

fn clip(id: &str, view_count: u64) -> Clip {
    Clip {
        id: id.to_string(),
        broadcaster_id: "1".to_string(),
        broadcaster_name: "Davaeorn".to_string(),
        creator_name: "someone".to_string(),
        recorded_at: "2023-01-01T00:00:00+00:00".to_string(),
        duration_secs: 30,
        title: "a clip".to_string(),
        url: "https://clips.example/a.mp4".to_string(),
        thumbnail_url: "https://clips.example/a-preview-480x272.jpg".to_string(),
        view_count,
        lang: "en".to_string(),
        game_id: "55".to_string(),
    }
}

#[test]
fn upsert_twice_keeps_latest_view_count() {
    let mut store = ClipStore::new();
    store.upsert(clip("ToughZealousFungusDancingBanana", 100));
    store.upsert(clip("ToughZealousFungusDancingBanana", 40));
    assert_eq!(store.len(), 1);
    let id = "ToughZealousFungusDancingBanana".to_string();
    assert_eq!(store.get(&id).map(|c| c.view_count), Some(40));
}

#[test]
fn upsert_batch_replaces_known_and_adds_new() {
    let mut store = ClipStore::new();
    store.upsert_batch(vec![clip("a", 1), clip("b", 2)]);
    store.upsert_batch(vec![clip("b", 20), clip("c", 3), clip("b", 200)]);
    assert_eq!(store.len(), 3);
    assert_eq!(store.get(&"a".to_string()).map(|c| c.view_count), Some(1));
    assert_eq!(store.get(&"b".to_string()).map(|c| c.view_count), Some(200));
    assert_eq!(store.get(&"c".to_string()).map(|c| c.view_count), Some(3));
    assert!(store.get(&"d".to_string()).is_none());
}

#[test]
fn empty_store_has_no_rows() {
    let mut store = ClipStore::new();
    assert_eq!(store.len(), 0);
    store.upsert_batch(Vec::new());
    assert_eq!(store.len(), 0);
}
