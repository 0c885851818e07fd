use goonbot::track::TrackInfo;
use goonbot::utils::{
    create_progress_bar, extract_playlist_id, format_duration, is_youtube_url, queue_preview,
    QUEUE_PREVIEW_LEN,
};

#[test]
fn durations_format_as_minutes_and_seconds() {
    assert_eq!(format_duration(0), "0:00");
    assert_eq!(format_duration(5), "0:05");
    assert_eq!(format_duration(65), "1:05");
    assert_eq!(format_duration(600), "10:00");
    assert_eq!(format_duration(3599), "59:59");
    assert_eq!(format_duration(3600), "60:00");
    assert_eq!(format_duration(u64::MAX), "307445734561825860:15");
}

#[test]
fn progress_bar_places_the_marker() {
    assert_eq!(create_progress_bar(5, 0, 4), "┈┈┈┈");
    assert_eq!(create_progress_bar(0, 0, 0), "");
    assert_eq!(create_progress_bar(0, 100, 10), "⚪┈┈┈┈┈┈┈┈┈");
    assert_eq!(create_progress_bar(50, 100, 10), "━━━━━⚪┈┈┈┈");
    assert_eq!(create_progress_bar(99, 100, 10), "━━━━━━━━━⚪");
    assert_eq!(create_progress_bar(100, 100, 10), "━━━━━━━━━━⚪");
    assert_eq!(create_progress_bar(500, 100, 3), "━━━⚪");
    assert_eq!(create_progress_bar(1, 3, 20), "━━━━━━⚪┈┈┈┈┈┈┈┈┈┈┈┈┈");
    assert_eq!(create_progress_bar(u64::MAX, u64::MAX, 2), "━━⚪");
}

#[test]
fn youtube_links_are_recognised() {
    assert!(is_youtube_url("https://www.youtube.com/watch?v=abc"));
    assert!(is_youtube_url("https://youtu.be/abc"));
    assert!(is_youtube_url("youtube.com"));
    assert!(!is_youtube_url("https://vimeo.com/123"));
    assert!(!is_youtube_url("youtube"));
    assert!(!is_youtube_url(""));
    assert!(!is_youtube_url("never gonna give you up"));
}

#[test]
fn playlist_ids_are_extracted() {
    assert_eq!(
        extract_playlist_id("https://www.youtube.com/playlist?list=PLEMIbGkCIAqDaWDz1hwg04BwSbDXDlPCh"),
        Some("PLEMIbGkCIAqDaWDz1hwg04BwSbDXDlPCh".to_string())
    );
    assert_eq!(
        extract_playlist_id("https://www.youtube.com/watch?v=x&list=PL123&index=4"),
        Some("PL123".to_string())
    );
    assert_eq!(extract_playlist_id("https://youtu.be/x?list=&list=AB"), Some("AB".to_string()));
    assert_eq!(extract_playlist_id("https://www.youtube.com/watch?v=x"), None);
    assert_eq!(extract_playlist_id("list="), None);
    assert_eq!(extract_playlist_id("list=é"), Some("é".to_string()));
}

fn track(title: &str) -> TrackInfo {
    TrackInfo {
        title: title.to_string(),
        url: "u".to_string(),
        duration: None,
        thumbnail: None,
        uploader: None,
    }
}

#[test]
fn queue_preview_names_the_first_tracks() {
    let tracks: Vec<TrackInfo> = (0..13).map(|i| track(&format!("song {}", i))).collect();
    let p = queue_preview(&tracks, QUEUE_PREVIEW_LEN);
    assert_eq!(p.total, 13);
    assert_eq!(p.hidden, 3);
    assert_eq!(p.titles.len(), 10);
    assert_eq!(p.titles[0], "song 0");
    assert_eq!(p.titles[9], "song 9");
    let short = queue_preview(&tracks[..2].to_vec(), QUEUE_PREVIEW_LEN);
    assert_eq!(short.titles, vec!["song 0".to_string(), "song 1".to_string()]);
    assert_eq!(short.hidden, 0);
    let empty = queue_preview(&Vec::new(), QUEUE_PREVIEW_LEN);
    assert_eq!(empty.total, 0);
    assert!(empty.titles.is_empty());
}
