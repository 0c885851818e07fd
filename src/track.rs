//! The track descriptor: an immutable value describing one playable item.

use vstd::prelude::*;

verus! {

/// One resolved, playable item.
#[derive(Debug, PartialEq, Eq)]
pub struct TrackInfo {
    pub title: String,
    /// The canonical playable reference (a page URL or an opaque handle).
    pub url: String,
    /// Length in seconds, when the metadata gives one.
    pub duration: Option<u64>,
    pub thumbnail: Option<String>,
    pub uploader: Option<String>,
}

fn clone_text(s: &Option<String>) -> (r: Option<String>)
    ensures
        r == *s,
{
    match s {
        Some(t) => Some(t.clone()),
        None => None,
    }
}

impl Clone for TrackInfo {
    fn clone(&self) -> (r: Self)
        ensures
            r == *self,
    {
        TrackInfo {
            title: self.title.clone(),
            url: self.url.clone(),
            duration: self.duration,
            thumbnail: clone_text(&self.thumbnail),
            uploader: clone_text(&self.uploader),
        }
    }
}

/// Why a query could not be resolved to a track.
#[derive(Debug, PartialEq, Eq)]
pub enum ResolutionError {
    /// The extraction produced no result.
    NotFound,
    /// The extraction tool failed; its message.
    ToolFailed(String),
}

} // verus!
