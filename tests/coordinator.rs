use goonbot::coordinator::{Coordinator, PlayError, PlayOutcome, SkipOutcome, VoiceJoinError};
use goonbot::guild::Advance;
use goonbot::store::MusicManager;
use goonbot::track::{ResolutionError, TrackInfo};

fn track(title: &str) -> TrackInfo {
    TrackInfo {
        title: title.to_string(),
        url: format!("https://example.com/watch?v={}", title.replace(' ', "_")),
        duration: Some(180),
        thumbnail: None,
        uploader: Some("someone".to_string()),
    }
}

fn titles(c: &mut Coordinator, guild: u64) -> Vec<String> {
    c.store.get_queue(guild).into_iter().map(|t| t.title).collect()
}

fn current_title(c: &mut Coordinator, guild: u64) -> Option<String> {
    c.store.get_current_track(guild).map(|t| t.info.title)
}

#[test]
fn play_queue_and_advance_scenario() {
    let mut c = Coordinator::new(MusicManager::new());
    let g = 1001;
    let ticket = c.request_play(g, Some(55)).unwrap();
    assert_eq!(ticket.channel, 55);
    let generation_a = match c.complete_play(ticket, Ok(track("song A")), 1_000).unwrap() {
        PlayOutcome::Started { track, generation } => {
            assert_eq!(track.title, "song A");
            generation
        },
        other => panic!("expected a start, got {:?}", other),
    };
    assert!(titles(&mut c, g).is_empty());
    assert_eq!(current_title(&mut c, g), Some("song A".to_string()));

    let ticket = c.request_play(g, Some(55)).unwrap();
    match c.complete_play(ticket, Ok(track("song B")), 2_000).unwrap() {
        PlayOutcome::Queued { position } => assert_eq!(position, 1),
        other => panic!("expected queueing, got {:?}", other),
    }
    assert_eq!(titles(&mut c, g), vec!["song B".to_string()]);
    assert_eq!(current_title(&mut c, g), Some("song A".to_string()));

    match c.on_track_end(g, generation_a, 3_000) {
        Some(Advance::Play { track, generation }) => {
            assert_eq!(track.title, "song B");
            assert_ne!(generation, generation_a);
        },
        other => panic!("expected an advance, got {:?}", other),
    }
    assert_eq!(current_title(&mut c, g), Some("song B".to_string()));
    assert!(titles(&mut c, g).is_empty());
}

#[test]
fn skip_while_idle_reports_nothing_to_skip() {
    let mut c = Coordinator::new(MusicManager::new());
    assert_eq!(c.skip(9), SkipOutcome::NothingToSkip);
    assert_eq!(c.store.queue_length(9), 0);
    assert!(c.store.get_current_track(9).is_none());
}

#[test]
fn skip_while_active_stops_the_current_generation() {
    let mut c = Coordinator::new(MusicManager::new());
    let ticket = c.request_play(3, Some(1)).unwrap();
    let generation = match c.complete_play(ticket, Ok(track("a")), 0).unwrap() {
        PlayOutcome::Started { generation, .. } => generation,
        other => panic!("unexpected {:?}", other),
    };
    assert_eq!(c.skip(3), SkipOutcome::StopCurrent { generation });
    // The transport's end notification then advances; nothing is queued.
    match c.on_track_end(3, generation, 10) {
        Some(Advance::Idle) => {},
        other => panic!("unexpected {:?}", other),
    }
    assert!(c.store.get_current_track(3).is_none());
}

#[test]
fn stop_makes_idle_and_discards_stale_end() {
    let mut c = Coordinator::new(MusicManager::new());
    let g = 4;
    let ticket = c.request_play(g, Some(1)).unwrap();
    let generation = match c.complete_play(ticket, Ok(track("a")), 0).unwrap() {
        PlayOutcome::Started { generation, .. } => generation,
        other => panic!("unexpected {:?}", other),
    };
    c.store.add_to_queue(g, track("b"));
    c.store.add_to_queue(g, track("c"));
    c.stop(g);
    assert_eq!(c.store.queue_length(g), 0);
    assert!(c.store.get_current_track(g).is_none());
    assert!(c.on_track_end(g, generation, 50).is_none());
    assert_eq!(c.store.queue_length(g), 0);
    assert!(c.store.get_current_track(g).is_none());

    // A new track after the stop: the old notification is still stale.
    let ticket = c.request_play(g, Some(1)).unwrap();
    c.complete_play(ticket, Ok(track("d")), 60).unwrap();
    assert!(c.on_track_end(g, generation, 70).is_none());
    assert_eq!(current_title(&mut c, g), Some("d".to_string()));
}

#[test]
fn begin_next_on_empty_queue_goes_idle_twice() {
    let mut c = Coordinator::new(MusicManager::new());
    let g = 5;
    c.store.set_current_track_at(g, track("a"), 0);
    assert!(matches!(c.begin_next(g, 10), Advance::Idle));
    assert!(c.store.get_current_track(g).is_none());
    assert!(matches!(c.begin_next(g, 20), Advance::Idle));
    assert!(c.store.get_current_track(g).is_none());
    assert_eq!(c.store.queue_length(g), 0);
}

#[test]
fn request_without_voice_channel_is_refused() {
    let mut c = Coordinator::new(MusicManager::new());
    assert_eq!(
        c.request_play(6, None).unwrap_err(),
        PlayError::VoiceJoin(VoiceJoinError::NotInVoiceChannel)
    );
}

#[test]
fn failed_resolution_leaves_queue_unchanged() {
    let mut c = Coordinator::new(MusicManager::new());
    c.store.add_to_queue(7, track("x"));
    let ticket = c.request_play(7, Some(2)).unwrap();
    let err = c.complete_play(ticket, Err(ResolutionError::ToolFailed("boom".to_string())), 0);
    assert_eq!(
        err.unwrap_err(),
        PlayError::Resolution(ResolutionError::ToolFailed("boom".to_string()))
    );
    assert_eq!(titles(&mut c, 7), vec!["x".to_string()]);
    assert!(c.store.get_current_track(7).is_none());
}

#[test]
fn resolution_after_stop_is_discarded() {
    let mut c = Coordinator::new(MusicManager::new());
    let ticket = c.request_play(8, Some(2)).unwrap();
    c.stop(8);
    assert_eq!(
        c.complete_play(ticket, Ok(track("late")), 0).unwrap_err(),
        PlayError::Superseded
    );
    assert_eq!(c.store.queue_length(8), 0);
    assert!(c.store.get_current_track(8).is_none());
}

#[test]
fn pause_and_resume_need_an_active_track() {
    let mut c = Coordinator::new(MusicManager::new());
    assert!(!c.pause(10, 0));
    assert!(!c.resume(10, 0));
    let ticket = c.request_play(10, Some(1)).unwrap();
    c.complete_play(ticket, Ok(track("a")), 1_000).unwrap();
    assert!(c.pause(10, 2_000));
    let paused = c.store.get_current_track(10).unwrap();
    assert!(!paused.is_playing());
    assert_eq!(paused.position_at(9_000), 1_000);
    assert!(c.resume(10, 4_000));
    let resumed = c.store.get_current_track(10).unwrap();
    assert!(resumed.is_playing());
    assert_eq!(resumed.position_at(5_000), 2_000);
}

#[test]
fn shuffle_refuses_short_queues() {
    let mut c = Coordinator::new(MusicManager::new());
    assert!(!c.shuffle(11));
    c.store.add_to_queue(11, track("only"));
    assert!(!c.shuffle(11));
    assert_eq!(titles(&mut c, 11), vec!["only".to_string()]);
}

#[test]
fn guilds_do_not_share_state() {
    let mut c = Coordinator::new(MusicManager::new());
    let t1 = c.request_play(1, Some(1)).unwrap();
    c.complete_play(t1, Ok(track("one")), 0).unwrap();
    assert_eq!(c.skip(2), SkipOutcome::NothingToSkip);
    c.stop(2);
    assert_eq!(current_title(&mut c, 1), Some("one".to_string()));
}
