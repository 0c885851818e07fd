//! The current-track tracker: play/pause state and the playback position of
//! the single active track of one guild.
//!
//! Instants are milliseconds since the Unix epoch. Each operation comes in two
//! forms: one that takes the instant as an argument and is exact, and one that
//! reads the system clock and hands its reading to the first.

use vstd::prelude::*;
use crate::track::TrackInfo;

verus! {

/// Relies on chrono's `Utc::now` and `DateTime::timestamp_millis`: the wall
/// clock, in milliseconds since the Unix epoch. Nothing is promised of the
/// value; two readings may differ in any way. (`Utc::now` panics when the
/// system clock reads before 1970.)
#[verifier::external_body]
pub(crate) fn clock_now_millis() -> (r: i64) {
    chrono::Utc::now().timestamp_millis()
}

/// The non-negative length of the interval from `from` to `to`; zero when the
/// clock went backwards.
pub open spec fn span(from: int, to: int) -> nat {
    if to > from {
        (to - from) as nat
    } else {
        0
    }
}

/// Executable form of [`span`].
pub fn span_millis(from: i64, to: i64) -> (r: u64)
    ensures
        r == span(from as int, to as int),
{
    if to > from {
        (to as i128 - from as i128) as u64
    } else {
        0
    }
}

/// The active track of a guild and its time accounting.
#[derive(Debug)]
pub struct CurrentTrack {
    pub info: TrackInfo,
    /// When playback began.
    pub start_ms: i64,
    /// When the current pause began; `None` while playing.
    pub paused_at_ms: Option<i64>,
    /// The paused time of all completed pauses.
    pub total_pause_ms: u64,
}

impl Clone for CurrentTrack {
    fn clone(&self) -> (r: Self)
        ensures
            r == *self,
    {
        CurrentTrack {
            info: self.info.clone(),
            start_ms: self.start_ms,
            paused_at_ms: self.paused_at_ms,
            total_pause_ms: self.total_pause_ms,
        }
    }
}

impl CurrentTrack {
    /// A tracker that started playing `info` at `now`.
    pub open spec fn started(info: TrackInfo, now: i64) -> CurrentTrack {
        CurrentTrack { info, start_ms: now, paused_at_ms: None, total_pause_ms: 0 }
    }

    /// The tracker after a pause at `now`: unchanged when already paused.
    pub open spec fn paused(self, now: i64) -> CurrentTrack {
        match self.paused_at_ms {
            Some(_) => self,
            None => CurrentTrack {
                info: self.info,
                start_ms: self.start_ms,
                paused_at_ms: Some(now),
                total_pause_ms: self.total_pause_ms,
            },
        }
    }

    /// The tracker after a resume at `now`: the pause that ends is added to the
    /// paused total; unchanged when already playing.
    pub open spec fn resumed(self, now: i64) -> CurrentTrack {
        match self.paused_at_ms {
            Some(p) => CurrentTrack {
                info: self.info,
                start_ms: self.start_ms,
                paused_at_ms: None,
                total_pause_ms: self.total_pause_ms.saturating_add(
                    span(p as int, now as int) as u64,
                ),
            },
            None => self,
        }
    }

    /// The playback position at `now`: time since the start, less the
    /// completed pauses, less the pause in progress.
    pub open spec fn position(self, now: i64) -> nat {
        let since_start = span(self.start_ms as int, now as int);
        let in_pause = match self.paused_at_ms {
            Some(p) => span(p as int, now as int),
            None => 0,
        };
        let after_pauses: int = since_start - self.total_pause_ms;
        let pos: int = if after_pauses < 0 { 0 } else { after_pauses } - in_pause;
        if pos < 0 { 0 } else { pos as nat }
    }

    /// Starts `info` at `now`, playing, with no paused time.
    pub fn new_at(info: TrackInfo, now: i64) -> (r: CurrentTrack)
        ensures
            r == CurrentTrack::started(info, now),
    {
        CurrentTrack { info, start_ms: now, paused_at_ms: None, total_pause_ms: 0 }
    }

    /// Starts `info` now.
    pub fn new(info: TrackInfo) -> (r: CurrentTrack)
        ensures
            r.info == info,
            r.paused_at_ms is None,
            r.total_pause_ms == 0,
    {
        CurrentTrack::new_at(info, clock_now_millis())
    }

    /// Whether the track is playing rather than paused.
    pub fn is_playing(&self) -> (r: bool)
        ensures
            r == (self.paused_at_ms is None),
    {
        self.paused_at_ms.is_none()
    }

    /// Pauses at `now`; does nothing when already paused.
    pub fn pause_at(&mut self, now: i64)
        ensures
            *final(self) == old(self).paused(now),
    {
        if self.paused_at_ms.is_none() {
            self.paused_at_ms = Some(now);
        }
    }

    /// Pauses now; does nothing when already paused.
    pub fn pause(&mut self)
        ensures
            exists|now: i64| *final(self) == old(self).paused(now),
    {
        let now = clock_now_millis();
        self.pause_at(now);
    }

    /// Resumes at `now`; does nothing when already playing.
    pub fn resume_at(&mut self, now: i64)
        ensures
            *final(self) == old(self).resumed(now),
    {
        match self.paused_at_ms {
            Some(p) => {
                let pause = span_millis(p, now);
                self.total_pause_ms = self.total_pause_ms.saturating_add(pause);
                self.paused_at_ms = None;
            },
            None => {},
        }
    }

    /// Resumes now; does nothing when already playing.
    pub fn resume(&mut self)
        ensures
            exists|now: i64| *final(self) == old(self).resumed(now),
    {
        let now = clock_now_millis();
        self.resume_at(now);
    }

    /// The playback position at `now`, in milliseconds.
    pub fn position_at(&self, now: i64) -> (r: u64)
        ensures
            r == self.position(now),
    {
        let since_start = span_millis(self.start_ms, now);
        let after_pauses = since_start.saturating_sub(self.total_pause_ms);
        let in_pause = match self.paused_at_ms {
            Some(p) => span_millis(p, now),
            None => 0,
        };
        after_pauses.saturating_sub(in_pause)
    }

    /// The playback position now, in milliseconds.
    pub fn get_current_position(&self) -> (r: u64)
        ensures
            exists|now: i64| r == self.position(now),
    {
        let now = clock_now_millis();
        self.position_at(now)
    }
}

/// A pause or resume command given to a tracker.
pub enum PauseCommand {
    Pause,
    Resume,
}

/// The tracker after `command` at instant `at`.
pub open spec fn apply_command(t: CurrentTrack, command: PauseCommand, at: i64) -> CurrentTrack {
    match command {
        PauseCommand::Pause => t.paused(at),
        PauseCommand::Resume => t.resumed(at),
    }
}

/// The tracker after each command of `commands`, in order.
pub open spec fn replay(t: CurrentTrack, commands: Seq<(PauseCommand, i64)>) -> CurrentTrack
    decreases commands.len(),
{
    if commands.len() == 0 {
        t
    } else {
        replay(apply_command(t, commands[0].0, commands[0].1), commands.drop_first())
    }
}

/// The instants of `commands` never go backwards, from `from` up to `now`.
pub open spec fn in_order(from: int, commands: Seq<(PauseCommand, i64)>, now: int) -> bool
    decreases commands.len(),
{
    if commands.len() == 0 {
        from <= now
    } else {
        from <= commands[0].1 && in_order(commands[0].1 as int, commands.drop_first(), now)
    }
}

/// Wall-clock time spent playing between `from` and `now`, for a track that
/// is playing at `from` when `playing` holds and then receives `commands`.
pub open spec fn playing_time(
    from: int,
    playing: bool,
    commands: Seq<(PauseCommand, i64)>,
    now: int,
) -> int
    decreases commands.len(),
{
    if commands.len() == 0 {
        if playing {
            now - from
        } else {
            0
        }
    } else {
        let at = commands[0].1 as int;
        (if playing {
            at - from
        } else {
            0
        }) + playing_time(at, commands[0].0 is Resume, commands.drop_first(), now)
    }
}

/// `t`, observed last at `t0`, has played for `so_far` milliseconds, and its
/// paused total has not saturated.
spec fn accounts(t: CurrentTrack, t0: int, so_far: int) -> bool {
    &&& t.start_ms <= t0
    &&& match t.paused_at_ms {
        None => t.total_pause_ms <= t0 - t.start_ms && so_far == t0 - t.start_ms
            - t.total_pause_ms,
        Some(p) => t.start_ms <= p <= t0 && t.total_pause_ms <= p - t.start_ms && so_far == p
            - t.start_ms - t.total_pause_ms,
    }
}

proof fn lemma_replay_accounts(
    t: CurrentTrack,
    t0: int,
    so_far: int,
    commands: Seq<(PauseCommand, i64)>,
    now: i64,
)
    requires
        in_order(t0, commands, now as int),
        accounts(t, t0, so_far),
    ensures
        replay(t, commands).position(now) == so_far + playing_time(
            t0,
            t.paused_at_ms is None,
            commands,
            now as int,
        ),
    decreases commands.len(),
{
    if commands.len() > 0 {
        let at = commands[0].1;
        let next = apply_command(t, commands[0].0, at);
        let gained: int = if t.paused_at_ms is None {
            at - t0
        } else {
            0
        };
        assert(accounts(next, at as int, so_far + gained));
        lemma_replay_accounts(next, at as int, so_far + gained, commands.drop_first(), now);
    }
}

/// Over any run of pause and resume commands whose instants do not go
/// backwards, the position of a track equals the wall-clock time it spent
/// playing: the time since it started less the time it spent paused.
pub proof fn lemma_position_is_playing_time(
    info: TrackInfo,
    start: i64,
    commands: Seq<(PauseCommand, i64)>,
    now: i64,
)
    requires
        in_order(start as int, commands, now as int),
    ensures
        replay(CurrentTrack::started(info, start), commands).position(now) == playing_time(
            start as int,
            true,
            commands,
            now as int,
        ),
{
    lemma_replay_accounts(CurrentTrack::started(info, start), start as int, 0, commands, now);
}

/// While a track plays, its position never decreases as the clock advances.
pub proof fn lemma_position_monotonic_while_playing(t: CurrentTrack, earlier: i64, later: i64)
    requires
        t.paused_at_ms is None,
        earlier <= later,
    ensures
        t.position(earlier) <= t.position(later),
{
}

} // verus!
