use goonbot::store::MusicManager;
use goonbot::track::TrackInfo;

fn track(title: &str) -> TrackInfo {
    TrackInfo {
        title: title.to_string(),
        url: format!("https://example.com/{}", title),
        duration: None,
        thumbnail: None,
        uploader: None,
    }
}

#[test]
fn dequeue_returns_tracks_in_insertion_order() {
    let mut store = MusicManager::new();
    let names = ["a", "b", "c", "d", "e"];
    for (i, n) in names.iter().enumerate() {
        assert_eq!(store.add_to_queue(1, track(n)), i + 1);
    }
    for n in names.iter() {
        assert_eq!(store.skip_current(1).map(|t| t.title), Some(n.to_string()));
    }
    assert!(store.skip_current(1).is_none());
}

#[test]
fn shuffle_keeps_the_tracks_and_eventually_reorders() {
    let mut store = MusicManager::new();
    let names: Vec<String> = (0..10).map(|i| format!("t{}", i)).collect();
    for n in names.iter() {
        store.add_to_queue(2, track(n));
    }
    let mut reordered = false;
    for _ in 0..20 {
        assert!(store.shuffle_queue(2));
        let now: Vec<String> = store.get_queue(2).into_iter().map(|t| t.title).collect();
        let mut sorted = now.clone();
        sorted.sort();
        let mut expected = names.clone();
        expected.sort();
        assert_eq!(sorted, expected);
        if now != names {
            reordered = true;
        }
    }
    assert!(reordered);
}

#[test]
fn clear_discards_queue_and_current() {
    let mut store = MusicManager::new();
    store.add_to_queue(3, track("a"));
    store.set_current_track(3, track("b"));
    assert!(store.get_current_track(3).is_some());
    store.clear_queue(3);
    assert_eq!(store.queue_length(3), 0);
    assert!(store.get_current_track(3).is_none());
    assert!(store.get_queue(3).is_empty());
}

#[test]
fn current_track_is_tracked_per_guild() {
    let mut store = MusicManager::new();
    store.set_current_track_at(4, track("x"), 100);
    store.pause_current_at(4, 300);
    store.pause_current_at(4, 400);
    store.resume_current_at(4, 700);
    let t = store.get_current_track(4).unwrap();
    assert_eq!(t.info.title, "x");
    assert_eq!(t.total_pause_ms, 400);
    assert_eq!(t.position_at(1_000), 500);
    assert!(store.get_current_track(5).is_none());
    store.pause_current(5);
    store.resume_current(5);
    assert!(store.get_current_track(5).is_none());
}

#[test]
fn epoch_and_generation_move_on() {
    let mut store = MusicManager::new();
    assert_eq!(store.active_generation(6), None);
    assert_eq!(store.current_epoch(6), 0);
    store.set_current_track_at(6, track("x"), 0);
    assert_eq!(store.active_generation(6), Some(1));
    store.clear_queue(6);
    assert_eq!(store.active_generation(6), None);
    assert_eq!(store.current_epoch(6), 1);
}
