//! Text helpers for the bot's messages and for recognising links.

use vstd::prelude::*;
use crate::track::TrackInfo;
use crate::text::{
    chars_of, contains_chars, contains_seq, decimal, digit, push_decimal, push_repeated,
    repeated, string_from_chars,
};

verus! {

/// `m:ss`: whole minutes, then the remaining seconds in two digits.
pub open spec fn duration_text(seconds: nat) -> Seq<char> {
    let rest = seconds % 60;
    decimal(seconds / 60) + seq![':', digit((rest / 10) as int), digit((rest % 10) as int)]
}

/// Formats a length in seconds as `m:ss`.
pub fn format_duration(seconds: u64) -> (r: String)
    ensures
        r@ == duration_text(seconds as nat),
{
    let minutes = seconds / 60;
    let rest = seconds % 60;
    let mut out: Vec<char> = Vec::new();
    push_decimal(&mut out, minutes);
    out.push(':');
    push_decimal(&mut out, rest / 10);
    push_decimal(&mut out, rest % 10);
    assert(out@ =~= duration_text(seconds as nat));
    string_from_chars(&out)
}

/// Where the marker of a progress bar stands: the share of `total` that
/// `current` has reached (capped at all of it), in `length` cells, rounded down.
pub open spec fn bar_position(current: nat, total: nat, length: nat) -> nat
    recommends
        total > 0,
{
    let reached = if current < total {
        current
    } else {
        total
    };
    (reached * length / total) as nat
}

/// A progress bar `length` cells long: filled cells up to the marker, the
/// marker, then empty cells. With no total there is no marker.
pub open spec fn progress_bar_text(current: nat, total: nat, length: nat) -> Seq<char> {
    if total == 0 {
        repeated('┈', length)
    } else {
        let position = bar_position(current, total, length);
        let empty: int = length - (position + 1);
        repeated('━', position) + seq!['⚪'] + repeated(
            '┈',
            if empty < 0 {
                0
            } else {
                empty as nat
            },
        )
    }
}

/// Draws the progress of `current` out of `total` as a bar of `length` cells.
pub fn create_progress_bar(current: u64, total: u64, length: usize) -> (r: String)
    ensures
        r@ == progress_bar_text(current as nat, total as nat, length as nat),
{
    let mut out: Vec<char> = Vec::new();
    if total == 0 {
        push_repeated(&mut out, '┈', length);
        assert(out@ =~= progress_bar_text(current as nat, total as nat, length as nat));
        return string_from_chars(&out);
    }
    let reached = if current < total {
        current
    } else {
        total
    };
    proof {
        let p = reached as int * length as int;
        assert(p <= total as int * length as int) by (nonlinear_arith)
            requires
                reached <= total,
                length >= 0,
                p == reached as int * length as int,
        ;
        vstd::arithmetic::div_mod::lemma_div_is_ordered(p, total as int * length as int, total as int);
        vstd::arithmetic::div_mod::lemma_div_by_multiple(length as int, total as int);
        assert(total as int * length as int == length as int * total as int) by (nonlinear_arith);
        assert(p <= u128::MAX) by (nonlinear_arith)
            requires
                p == reached as int * length as int,
                0 <= reached <= u64::MAX,
                0 <= length <= u64::MAX,
        ;
        assert(p >= 0) by (nonlinear_arith)
            requires
                p == reached as int * length as int,
                reached >= 0,
                length >= 0,
        ;
    }
    let position = ((reached as u128 * length as u128) / total as u128) as usize;
    push_repeated(&mut out, '━', position);
    out.push('⚪');
    let empty = length.saturating_sub(position).saturating_sub(1);
    push_repeated(&mut out, '┈', empty);
    assert(out@ =~= progress_bar_text(current as nat, total as nat, length as nat));
    string_from_chars(&out)
}

/// The URL names a YouTube host.
pub open spec fn youtube_link(url: Seq<char>) -> bool {
    contains_seq(url, "youtube.com"@) || contains_seq(url, "youtu.be"@)
}

/// Whether `url` mentions `youtube.com` or `youtu.be`.
pub fn is_youtube_url(url: &str) -> (r: bool)
    ensures
        r == youtube_link(url@),
{
    let hay = chars_of(url);
    contains_chars(&hay, &chars_of("youtube.com")) || contains_chars(&hay, &chars_of("youtu.be"))
}

/// The query key that introduces a playlist id.
pub open spec fn list_key() -> Seq<char> {
    seq!['l', 'i', 's', 't', '=']
}

/// `text` holds `list=` at `i`, followed by a character other than `&`.
pub open spec fn list_param_at(text: Seq<char>, i: int) -> bool {
    0 <= i && i + 5 < text.len() && text.subrange(i, i + 5) == list_key() && text[i + 5] != '&'
}

/// The first index from `from` on where [`list_param_at`] holds.
pub open spec fn first_list_param(text: Seq<char>, from: nat) -> Option<nat>
    decreases text.len() - from,
{
    if from + 5 >= text.len() {
        None
    } else if list_param_at(text, from as int) {
        Some(from)
    } else {
        first_list_param(text, from + 1)
    }
}

/// The end of the run of characters other than `&` that starts at `k`.
pub open spec fn run_end(text: Seq<char>, k: nat) -> nat
    decreases text.len() - k,
{
    if k >= text.len() || text[k as int] == '&' {
        k
    } else {
        run_end(text, k + 1)
    }
}

/// The playlist id of a link: what follows the first `list=` that is followed
/// by anything, up to the next `&` or the end.
pub open spec fn playlist_id_of(text: Seq<char>) -> Option<Seq<char>> {
    match first_list_param(text, 0) {
        Some(i) => Some(text.subrange(i + 5 as int, run_end(text, i + 5) as int)),
        None => None,
    }
}

/// The pattern that finds a playlist id.
pub const PLAYLIST_PATTERN: &'static str = "list=([^&]+)";

/// Relies on regex's `Regex::new`, `Regex::captures` and `Captures::get`: for
/// the pattern `list=([^&]+)`, the first group of the leftmost match, which
/// is the run of non-`&` characters after the first `list=` that has one.
#[verifier::external_body]
fn first_group(pattern: &str, text: &str) -> (r: Option<String>)
    requires
        pattern@ == PLAYLIST_PATTERN@,
    ensures
        match r {
            Some(id) => playlist_id_of(text@) == Some(id@),
            None => playlist_id_of(text@) is None,
        },
{
    regex::Regex::new(pattern).ok().and_then(
        |re| re.captures(text).and_then(|caps| caps.get(1)).map(|m| m.as_str().to_string()),
    )
}

/// The playlist id of `url`, if it has one.
pub fn extract_playlist_id(url: &str) -> (r: Option<String>)
    ensures
        match r {
            Some(id) => playlist_id_of(url@) == Some(id@),
            None => playlist_id_of(url@) is None,
        },
{
    first_group(PLAYLIST_PATTERN, url)
}

/// How many queued tracks a queue listing names.
pub const QUEUE_PREVIEW_LEN: usize = 10;

/// The head of a queue as a listing shows it.
pub struct QueuePreview {
    /// The titles of the first tracks, head first.
    pub titles: Vec<String>,
    /// How many tracks follow those.
    pub hidden: usize,
    /// How many tracks the queue holds.
    pub total: usize,
}

/// The titles of the first `limit` tracks of `tracks`, and the count of the rest.
pub fn queue_preview(tracks: &Vec<TrackInfo>, limit: usize) -> (r: QueuePreview)
    ensures
        r.total == tracks@.len(),
        r.titles@.len() == (if tracks@.len() < limit {
            tracks@.len()
        } else {
            limit as nat
        }),
        forall|i: int| 0 <= i < r.titles@.len() ==> #[trigger] r.titles@[i] == tracks@[i].title,
        r.hidden == tracks@.len() - r.titles@.len(),
{
    let shown = if tracks.len() < limit {
        tracks.len()
    } else {
        limit
    };
    let mut titles: Vec<String> = Vec::new();
    for i in 0..shown
        invariant
            shown <= tracks@.len(),
            titles@.len() == i,
            forall|k: int| 0 <= k < i ==> #[trigger] titles@[k] == tracks@[k].title,
    {
        titles.push(tracks[i].title.clone());
    }
    QueuePreview { titles, hidden: tracks.len() - shown, total: tracks.len() }
}

} // verus!
