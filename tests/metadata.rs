use goonbot::metadata::{split_lines, track_from_fields, track_from_json, tracks_from_search_output};
use goonbot::track::ResolutionError;

#[test]
fn full_metadata_becomes_a_track() {
    let doc = r#"{"title":"Song","webpage_url":"https://www.youtube.com/watch?v=1","original_url":"https://youtu.be/1","duration":213,"thumbnail":"https://i.ytimg.com/1.jpg","uploader":"Band","formats":[1,2]}"#;
    let t = track_from_json(doc, "song").unwrap();
    assert_eq!(t.title, "Song");
    assert_eq!(t.url, "https://www.youtube.com/watch?v=1");
    assert_eq!(t.duration, Some(213));
    assert_eq!(t.thumbnail, Some("https://i.ytimg.com/1.jpg".to_string()));
    assert_eq!(t.uploader, Some("Band".to_string()));
}

#[test]
fn missing_fields_fall_back() {
    let t = track_from_json(r#"{"original_url":"https://youtu.be/2","duration":-4}"#, "q").unwrap();
    assert_eq!(t.title, "Unknown");
    assert_eq!(t.url, "https://youtu.be/2");
    assert_eq!(t.duration, None);
    assert_eq!(t.thumbnail, None);
    assert_eq!(t.uploader, None);
    let t = track_from_json(r#"{"webpage_url":""}"#, "my query").unwrap();
    assert_eq!(t.url, "my query");
}

#[test]
fn no_reference_is_not_found() {
    assert_eq!(track_from_json("{}", "").unwrap_err(), ResolutionError::NotFound);
    assert_eq!(
        track_from_fields(Some("t".to_string()), None, Some(String::new()), "", None, None, None)
            .unwrap_err(),
        ResolutionError::NotFound
    );
}

#[test]
fn unreadable_metadata_is_a_tool_failure() {
    assert_eq!(
        track_from_json("ERROR: not json", "q").unwrap_err(),
        ResolutionError::ToolFailed("metadata is not JSON".to_string())
    );
}

#[test]
fn fields_are_taken_as_given() {
    let t = track_from_fields(
        None,
        Some("https://a".to_string()),
        Some("https://b".to_string()),
        "q",
        Some(1),
        None,
        Some("up".to_string()),
    )
    .unwrap();
    assert_eq!(t.title, "Unknown");
    assert_eq!(t.url, "https://a");
    assert_eq!(t.duration, Some(1));
    assert_eq!(t.uploader, Some("up".to_string()));
}

#[test]
fn lines_are_split_on_line_feeds() {
    assert_eq!(split_lines("a\nb\n"), vec!["a".to_string(), "b".to_string()]);
    assert_eq!(split_lines("a\n\nb"), vec!["a".to_string(), String::new(), "b".to_string()]);
    assert!(split_lines("").is_empty());
    assert_eq!(split_lines("\n"), vec![String::new()]);
}

#[test]
fn search_output_keeps_playable_lines_in_order() {
    let out = [
        r#"{"title":"one","webpage_url":"https://y/1","duration":10}"#,
        "garbage",
        r#"{"title":"no link"}"#,
        r#"{"title":"two","webpage_url":"https://y/2"}"#,
        "",
    ]
    .join("\n");
    let tracks = tracks_from_search_output(&out);
    assert_eq!(tracks.len(), 2);
    assert_eq!(tracks[0].title, "one");
    assert_eq!(tracks[0].duration, Some(10));
    assert_eq!(tracks[1].url, "https://y/2");
    assert!(tracks_from_search_output("").is_empty());
}
