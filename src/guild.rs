//! The state the store keeps for one guild, and each transition of it.

use vstd::prelude::*;
use crate::track::TrackInfo;
use crate::tracker::CurrentTrack;

verus! {

/// The next value of a wrapping counter; never equal to `n`.
pub open spec fn bump(n: u64) -> u64 {
    if n == u64::MAX {
        0
    } else {
        (n + 1) as u64
    }
}

fn bump_exec(n: u64) -> (r: u64)
    ensures
        r == bump(n),
{
    if n == u64::MAX {
        0
    } else {
        n + 1
    }
}

/// Relies on rand's `SliceRandom::shuffle` with `thread_rng`: an in-place
/// Fisher-Yates shuffle, which only swaps elements. The order that results is
/// random; the elements are the same.
#[verifier::external_body]
fn shuffle_tracks(tracks: &mut Vec<TrackInfo>)
    ensures
        final(tracks)@.len() == old(tracks)@.len(),
        final(tracks)@.to_multiset() == old(tracks)@.to_multiset(),
{
    rand::seq::SliceRandom::shuffle(tracks.as_mut_slice(), &mut rand::thread_rng());
}

/// What the voice transport is to do after the queue advanced.
#[derive(Debug)]
pub enum Advance {
    /// Play `track`; its end notification carries `generation`.
    Play { track: TrackInfo, generation: u64 },
    /// Nothing is queued: the guild is idle.
    Idle,
}

/// The abstract state of one guild.
pub struct GuildView {
    /// Tracks waiting to play; the head plays next.
    pub queue: Seq<TrackInfo>,
    /// The active track, if the guild is not idle.
    pub current: Option<CurrentTrack>,
    /// Tag of the latest "now playing" assignment.
    pub generation: u64,
    /// Tag of the latest stop; a request begun under another epoch is stale.
    pub epoch: u64,
}

impl GuildView {
    /// A guild the store has not seen yet.
    pub open spec fn fresh() -> GuildView {
        GuildView { queue: Seq::empty(), current: None, generation: 0, epoch: 0 }
    }

    pub open spec fn is_idle(self) -> bool {
        self.current is None
    }

    pub open spec fn enqueued(self, track: TrackInfo) -> GuildView {
        GuildView { queue: self.queue.push(track), ..self }
    }

    /// The head of the queue, if any, and the state without it.
    pub open spec fn dequeued(self) -> (Option<TrackInfo>, GuildView) {
        if self.queue.len() == 0 {
            (None, self)
        } else {
            (Some(self.queue[0]), GuildView { queue: self.queue.drop_first(), ..self })
        }
    }

    /// Empty queue, no active track, and both tags moved on.
    pub open spec fn cleared(self) -> GuildView {
        GuildView {
            queue: Seq::empty(),
            current: None,
            generation: bump(self.generation),
            epoch: bump(self.epoch),
        }
    }

    /// `track` becomes the active track at `now`, under a new generation.
    pub open spec fn with_current(self, track: TrackInfo, now: i64) -> GuildView {
        GuildView {
            current: Some(CurrentTrack::started(track, now)),
            generation: bump(self.generation),
            ..self
        }
    }

    pub open spec fn current_paused(self, now: i64) -> GuildView {
        match self.current {
            Some(c) => GuildView { current: Some(c.paused(now)), ..self },
            None => self,
        }
    }

    pub open spec fn current_resumed(self, now: i64) -> GuildView {
        match self.current {
            Some(c) => GuildView { current: Some(c.resumed(now)), ..self },
            None => self,
        }
    }

    /// Pops the head and makes it the active track; with an empty queue the
    /// guild becomes idle.
    pub open spec fn began_next(self, now: i64) -> (Advance, GuildView) {
        if self.queue.len() == 0 {
            (Advance::Idle, GuildView { current: None, ..self })
        } else {
            let track = self.queue[0];
            (
                Advance::Play { track, generation: bump(self.generation) },
                GuildView { queue: self.queue.drop_first(), ..self }.with_current(track, now),
            )
        }
    }

    /// The end notification of the track tagged `generation`: advances when that
    /// track is still the active one, and is discarded otherwise.
    pub open spec fn track_ended(self, generation: u64, now: i64) -> (Option<Advance>, GuildView) {
        if self.current is Some && self.generation == generation {
            let (a, next) = self.began_next(now);
            (Some(a), next)
        } else {
            (None, self)
        }
    }
}

/// Everything the store holds for one guild.
pub struct GuildState {
    pub queue: Vec<TrackInfo>,
    pub current: Option<CurrentTrack>,
    pub generation: u64,
    pub epoch: u64,
}

impl View for GuildState {
    type V = GuildView;

    open spec fn view(&self) -> GuildView {
        GuildView {
            queue: self.queue@,
            current: self.current,
            generation: self.generation,
            epoch: self.epoch,
        }
    }
}

impl GuildState {
    pub fn fresh() -> (r: GuildState)
        ensures
            r@ == GuildView::fresh(),
    {
        GuildState { queue: Vec::new(), current: None, generation: 0, epoch: 0 }
    }

    /// Appends `track`; returns the new queue length.
    pub fn enqueue(&mut self, track: TrackInfo) -> (r: usize)
        ensures
            final(self)@ == old(self)@.enqueued(track),
            r == final(self)@.queue.len(),
    {
        self.queue.push(track);
        self.queue.len()
    }

    /// Removes and returns the head of the queue.
    pub fn dequeue(&mut self) -> (r: Option<TrackInfo>)
        ensures
            (r, final(self)@) == old(self)@.dequeued(),
    {
        if self.queue.len() == 0 {
            None
        } else {
            Some(self.queue.remove(0))
        }
    }

    pub fn clear(&mut self)
        ensures
            final(self)@ == old(self)@.cleared(),
    {
        self.queue = Vec::new();
        self.current = None;
        self.generation = bump_exec(self.generation);
        self.epoch = bump_exec(self.epoch);
    }

    pub fn set_current(&mut self, track: TrackInfo, now: i64)
        ensures
            final(self)@ == old(self)@.with_current(track, now),
    {
        self.current = Some(CurrentTrack::new_at(track, now));
        self.generation = bump_exec(self.generation);
    }

    pub fn pause_current(&mut self, now: i64)
        ensures
            final(self)@ == old(self)@.current_paused(now),
    {
        match &mut self.current {
            Some(c) => c.pause_at(now),
            None => {},
        }
    }

    pub fn resume_current(&mut self, now: i64)
        ensures
            final(self)@ == old(self)@.current_resumed(now),
    {
        match &mut self.current {
            Some(c) => c.resume_at(now),
            None => {},
        }
    }

    /// Randomizes the order of the queue when it holds at least two tracks, and
    /// reports whether it did.
    pub fn shuffle(&mut self) -> (r: bool)
        ensures
            r == (old(self)@.queue.len() >= 2),
            !r ==> final(self)@ == old(self)@,
            r ==> final(self)@.queue.to_multiset() == old(self)@.queue.to_multiset(),
            final(self)@.queue.len() == old(self)@.queue.len(),
            final(self)@.current == old(self)@.current,
            final(self)@.generation == old(self)@.generation,
            final(self)@.epoch == old(self)@.epoch,
    {
        if self.queue.len() < 2 {
            false
        } else {
            shuffle_tracks(&mut self.queue);
            true
        }
    }

    /// Pops the head of the queue and makes it the active track, or makes the
    /// guild idle when the queue is empty.
    pub fn begin_next(&mut self, now: i64) -> (r: Advance)
        ensures
            (r, final(self)@) == old(self)@.began_next(now),
    {
        match self.dequeue() {
            None => {
                self.current = None;
                Advance::Idle
            },
            Some(track) => {
                let played = track.clone();
                self.set_current(track, now);
                Advance::Play { track: played, generation: self.generation }
            },
        }
    }

    /// Handles the end notification of the track tagged `generation`.
    pub fn track_ended(&mut self, generation: u64, now: i64) -> (r: Option<Advance>)
        ensures
            (r, final(self)@) == old(self)@.track_ended(generation, now),
    {
        if self.current.is_some() && self.generation == generation {
            Some(self.begin_next(now))
        } else {
            None
        }
    }
}

/// The state after appending each of `tracks`, in order.
pub open spec fn enqueue_all(st: GuildView, tracks: Seq<TrackInfo>) -> GuildView
    decreases tracks.len(),
{
    if tracks.len() == 0 {
        st
    } else {
        enqueue_all(st.enqueued(tracks[0]), tracks.drop_first())
    }
}

/// What `n` successive dequeues return.
pub open spec fn dequeue_results(st: GuildView, n: nat) -> Seq<Option<TrackInfo>>
    decreases n,
{
    if n == 0 {
        Seq::empty()
    } else {
        let (head, rest) = st.dequeued();
        seq![head] + dequeue_results(rest, (n - 1) as nat)
    }
}

proof fn lemma_enqueue_all_appends(st: GuildView, tracks: Seq<TrackInfo>)
    ensures
        enqueue_all(st, tracks).queue == st.queue + tracks,
    decreases tracks.len(),
{
    if tracks.len() > 0 {
        lemma_enqueue_all_appends(st.enqueued(tracks[0]), tracks.drop_first());
        assert(st.queue.push(tracks[0]) + tracks.drop_first() == st.queue + tracks);
    }
}

proof fn lemma_dequeue_results_prefix(st: GuildView, n: nat)
    requires
        n <= st.queue.len(),
    ensures
        dequeue_results(st, n) == st.queue.take(n as int).map_values(|t: TrackInfo| Some(t)),
    decreases n,
{
    if n > 0 {
        let rest = st.dequeued().1;
        lemma_dequeue_results_prefix(rest, (n - 1) as nat);
        assert(seq![Some(st.queue[0])] + rest.queue.take(n - 1).map_values(
            |t: TrackInfo| Some(t),
        ) == st.queue.take(n as int).map_values(|t: TrackInfo| Some(t)));
    }
}

/// First in, first out: enqueueing tracks into an empty queue and then
/// dequeueing as many times returns every track, in the order of insertion.
pub proof fn lemma_queue_is_fifo(st: GuildView, tracks: Seq<TrackInfo>)
    requires
        st.queue.len() == 0,
    ensures
        dequeue_results(enqueue_all(st, tracks), tracks.len()) == tracks.map_values(
            |t: TrackInfo| Some(t),
        ),
{
    lemma_enqueue_all_appends(st, tracks);
    let filled = enqueue_all(st, tracks);
    assert(filled.queue == tracks);
    lemma_dequeue_results_prefix(filled, tracks.len());
    assert(filled.queue.take(tracks.len() as int) == tracks);
}

/// After a stop the guild is idle with an empty queue, and an end notification
/// of any generation arriving then changes nothing.
pub proof fn lemma_stop_makes_idle(st: GuildView, generation: u64, now: i64)
    ensures
        st.cleared().queue.len() == 0,
        st.cleared().is_idle(),
        st.cleared().track_ended(generation, now) == (None::<Advance>, st.cleared()),
{
}

/// The end notification of the track that was active when the guild was
/// stopped is still discarded once a new track has started.
pub proof fn lemma_stale_end_after_restart(st: GuildView, track: TrackInfo, now: i64, later: i64)
    ensures
        ({
            let restarted = st.cleared().enqueued(track).began_next(now).1;
            restarted.track_ended(st.generation, later) == (None::<Advance>, restarted)
        }),
{
}

/// With an empty queue, beginning the next track leaves the guild idle, and
/// doing it again changes nothing.
pub proof fn lemma_begin_next_on_empty_queue(st: GuildView, now: i64, again: i64)
    requires
        st.queue.len() == 0,
    ensures
        st.began_next(now).0 == Advance::Idle,
        st.began_next(now).1.is_idle(),
        st.began_next(now).1.began_next(again) == (Advance::Idle, st.began_next(now).1),
{
}

} // verus!
