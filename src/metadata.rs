//! From the extraction tool's metadata to a track descriptor.
//!
//! The tool describes an item as a JSON object. The members read from it are
//! named results of serde_json; what a descriptor is made of, given those
//! members, is stated exactly by [`track_from_fields`].

use vstd::prelude::*;
use crate::text::{chars_of, string_from_chars};
use crate::track::{ResolutionError, TrackInfo};

verus! {

/// `doc` is a JSON document.
pub uninterp spec fn json_is_value(doc: Seq<char>) -> bool;

/// The string member `key` of the JSON object in `doc`, if there is one.
pub uninterp spec fn json_text_member(doc: Seq<char>, key: Seq<char>) -> Option<Seq<char>>;

/// The member `key` of the JSON object in `doc`, if it is an integer that fits
/// in a `u64`.
pub uninterp spec fn json_u64_member(doc: Seq<char>, key: Seq<char>) -> Option<u64>;

/// Relies on serde_json's `from_str` into a `Value`: whether `doc` parses.
#[verifier::external_body]
fn json_parses(doc: &str) -> (r: bool)
    ensures
        r == json_is_value(doc@),
{
    serde_json::from_str::<serde_json::Value>(doc).is_ok()
}

/// Relies on serde_json's `from_str` into a `Value`, then `Value::get` and
/// `Value::as_str`: the string member `key` of the object in `doc`.
#[verifier::external_body]
fn json_text(doc: &str, key: &str) -> (r: Option<String>)
    ensures
        match r {
            Some(s) => json_text_member(doc@, key@) == Some(s@),
            None => json_text_member(doc@, key@) is None,
        },
{
    serde_json::from_str::<serde_json::Value>(doc).ok().and_then(
        |v| v.get(key).and_then(|m| m.as_str()).map(|s| s.to_string()),
    )
}

/// Relies on serde_json's `from_str` into a `Value`, then `Value::get` and
/// `Value::as_u64`: the unsigned integer member `key` of the object in `doc`.
#[verifier::external_body]
fn json_u64(doc: &str, key: &str) -> (r: Option<u64>)
    ensures
        r == json_u64_member(doc@, key@),
{
    serde_json::from_str::<serde_json::Value>(doc).ok().and_then(
        |v| v.get(key).and_then(|m| m.as_u64()),
    )
}

/// The view of an optional string.
pub open spec fn text_view(s: Option<String>) -> Option<Seq<char>> {
    match s {
        Some(t) => Some(t@),
        None => None,
    }
}

/// The title used when the metadata has none.
pub open spec fn placeholder_title() -> Seq<char> {
    seq!['U', 'n', 'k', 'n', 'o', 'w', 'n']
}

/// The playable reference: the page URL, else the original URL, else the
/// query itself, taking the first that is present and not empty.
pub open spec fn chosen_reference(
    webpage_url: Option<Seq<char>>,
    original_url: Option<Seq<char>>,
    query: Seq<char>,
) -> Seq<char> {
    if webpage_url is Some && webpage_url->0.len() > 0 {
        webpage_url->0
    } else if original_url is Some && original_url->0.len() > 0 {
        original_url->0
    } else {
        query
    }
}

fn non_empty(s: &Option<String>) -> (r: bool)
    ensures
        r == (s is Some && s->0@.len() > 0),
{
    match s {
        Some(t) => !t.as_str().is_empty(),
        None => false,
    }
}

/// Builds a descriptor from the metadata fields of one item. The title falls
/// back to `Unknown`; the reference is [`chosen_reference`], and when that is
/// empty the item cannot be played and the resolution fails.
pub fn track_from_fields(
    title: Option<String>,
    webpage_url: Option<String>,
    original_url: Option<String>,
    query: &str,
    duration: Option<u64>,
    thumbnail: Option<String>,
    uploader: Option<String>,
) -> (r: Result<TrackInfo, ResolutionError>)
    ensures
        ({
            let reference = chosen_reference(text_view(webpage_url), text_view(original_url), query@);
            match r {
                Ok(t) => {
                    &&& reference.len() > 0
                    &&& t.url@ == reference
                    &&& t.title@ == (match title {
                        Some(s) => s@,
                        None => placeholder_title(),
                    })
                    &&& t.duration == duration
                    &&& t.thumbnail == thumbnail
                    &&& t.uploader == uploader
                },
                Err(e) => reference.len() == 0 && e == ResolutionError::NotFound,
            }
        }),
{
    let url = if non_empty(&webpage_url) {
        webpage_url.unwrap()
    } else if non_empty(&original_url) {
        original_url.unwrap()
    } else {
        query.to_owned()
    };
    if url.as_str().is_empty() {
        return Err(ResolutionError::NotFound);
    }
    let title = match title {
        Some(t) => t,
        None => {
            let t = "Unknown".to_owned();
            proof {
                reveal_strlit("Unknown");
            }
            assert(t@ == placeholder_title());
            t
        },
    };
    Ok(TrackInfo { title, url, duration, thumbnail, uploader })
}

/// The message of a resolution whose metadata is not JSON.
pub open spec fn unreadable_metadata() -> Seq<char> {
    seq!['m', 'e', 't', 'a', 'd', 'a', 't', 'a', ' ', 'i', 's', ' ', 'n', 'o', 't', ' ', 'J', 'S', 'O', 'N']
}

/// The playable reference of the item `doc` describes, found for `query`.
pub open spec fn json_reference(doc: Seq<char>, query: Seq<char>) -> Seq<char> {
    chosen_reference(
        json_text_member(doc, "webpage_url"@),
        json_text_member(doc, "original_url"@),
        query,
    )
}

/// `doc` is JSON and gives the item a playable reference.
pub open spec fn resolvable(doc: Seq<char>, query: Seq<char>) -> bool {
    json_is_value(doc) && json_reference(doc, query).len() > 0
}

/// `t` is the descriptor that the item `doc` describes, found for `query`.
pub open spec fn describes(t: TrackInfo, doc: Seq<char>, query: Seq<char>) -> bool {
    &&& t.url@ == json_reference(doc, query)
    &&& t.title@ == match json_text_member(doc, "title"@) {
        Some(s) => s,
        None => placeholder_title(),
    }
    &&& t.duration == json_u64_member(doc, "duration"@)
    &&& text_view(t.thumbnail) == json_text_member(doc, "thumbnail"@)
    &&& text_view(t.uploader) == json_text_member(doc, "uploader"@)
}

/// Builds a descriptor from the tool's JSON description of one item found
/// for `query`: [`track_from_fields`] over its `title`, `webpage_url`,
/// `original_url`, `duration`, `thumbnail` and `uploader` members.
pub fn track_from_json(doc: &str, query: &str) -> (r: Result<TrackInfo, ResolutionError>)
    ensures
        r is Ok <==> resolvable(doc@, query@),
        r matches Ok(t) ==> describes(t, doc@, query@),
        !json_is_value(doc@) ==> (r matches Err(ResolutionError::ToolFailed(m)) && m@
            == unreadable_metadata()),
        json_is_value(doc@) && !resolvable(doc@, query@) ==> r == Err::<
            TrackInfo,
            ResolutionError,
        >(ResolutionError::NotFound),
{
    if !json_parses(doc) {
        let m = "metadata is not JSON".to_owned();
        proof {
            reveal_strlit("metadata is not JSON");
        }
        assert(m@ == unreadable_metadata());
        return Err(ResolutionError::ToolFailed(m));
    }
    track_from_fields(
        json_text(doc, "title"),
        json_text(doc, "webpage_url"),
        json_text(doc, "original_url"),
        query,
        json_u64(doc, "duration"),
        json_text(doc, "thumbnail"),
        json_text(doc, "uploader"),
    )
}

/// The complete lines of `text` scanned so far, and the line in progress.
pub open spec fn scan_lines(text: Seq<char>) -> (Seq<Seq<char>>, Seq<char>)
    decreases text.len(),
{
    if text.len() == 0 {
        (Seq::empty(), Seq::empty())
    } else {
        let (done, current) = scan_lines(text.drop_last());
        if text.last() == '\n' {
            (done.push(current), Seq::empty())
        } else {
            (done, current.push(text.last()))
        }
    }
}

/// The lines of `text`: the pieces between line feeds, the last one only when
/// it is not empty.
pub open spec fn lines_of(text: Seq<char>) -> Seq<Seq<char>> {
    let (done, current) = scan_lines(text);
    if current.len() > 0 {
        done.push(current)
    } else {
        done
    }
}

/// The views of a sequence of strings.
pub open spec fn text_views(lines: Seq<String>) -> Seq<Seq<char>> {
    lines.map_values(|s: String| s@)
}

/// Splits `text` into its lines.
pub fn split_lines(text: &str) -> (r: Vec<String>)
    ensures
        text_views(r@) == lines_of(text@),
{
    let chars = chars_of(text);
    let mut done: Vec<String> = Vec::new();
    let mut current: Vec<char> = Vec::new();
    for i in 0..chars.len()
        invariant
            chars@ == text@,
            text_views(done@) == scan_lines(chars@.take(i as int)).0,
            current@ == scan_lines(chars@.take(i as int)).1,
    {
        assert(chars@.take(i + 1).drop_last() == chars@.take(i as int));
        let c = chars[i];
        if c == '\n' {
            let line = string_from_chars(&current);
            done.push(line);
            current = Vec::new();
            assert(text_views(done@) =~= scan_lines(chars@.take(i + 1)).0);
        } else {
            current.push(c);
        }
    }
    assert(chars@.take(chars@.len() as int) == chars@);
    if current.len() > 0 {
        let line = string_from_chars(&current);
        done.push(line);
        assert(text_views(done@) =~= lines_of(text@));
    }
    done
}

/// The lines among `lines` that describe a playable item of a search.
pub open spec fn found_lines(lines: Seq<Seq<char>>) -> Seq<Seq<char>>
    decreases lines.len(),
{
    if lines.len() == 0 {
        lines
    } else {
        let before = found_lines(lines.drop_last());
        if resolvable(lines.last(), Seq::empty()) {
            before.push(lines.last())
        } else {
            before
        }
    }
}

/// The tracks of a search: the tool prints one JSON object per line; each line
/// that describes a playable item gives a track, in order, and the other lines
/// are skipped.
pub fn tracks_from_search_output(text: &str) -> (r: Vec<TrackInfo>)
    ensures
        r@.len() == found_lines(lines_of(text@)).len(),
        forall|i: int|
            0 <= i < r@.len() ==> describes(
                #[trigger] r@[i],
                found_lines(lines_of(text@))[i],
                Seq::empty(),
            ),
{
    let lines = split_lines(text);
    let ghost views = text_views(lines@);
    let no_query = "";
    proof {
        reveal_strlit("");
    }
    let mut tracks: Vec<TrackInfo> = Vec::new();
    for i in 0..lines.len()
        invariant
            views == text_views(lines@),
            views == lines_of(text@),
            no_query@ == Seq::<char>::empty(),
            tracks@.len() == found_lines(views.take(i as int)).len(),
            forall|k: int|
                0 <= k < tracks@.len() ==> describes(
                    #[trigger] tracks@[k],
                    found_lines(views.take(i as int))[k],
                    Seq::empty(),
                ),
    {
        assert(views.take(i + 1).drop_last() == views.take(i as int));
        assert(views.take(i + 1).last() == lines@[i as int]@);
        match track_from_json(lines[i].as_str(), no_query) {
            Ok(t) => {
                tracks.push(t);
            },
            Err(_) => {},
        }
    }
    assert(views.take(lines@.len() as int) == views);
    tracks
}

} // verus!
