//! The playback coordinator: the decisions of the play, advance, skip, pause,
//! resume, stop and shuffle operations.
//!
//! The coordinator performs no I/O. Each operation changes the store in one
//! step and returns what the voice transport is to do; the caller performs that
//! and reports back the events (a track ended, a start failed) with the
//! generation it was handed.

use vstd::prelude::*;
use crate::guild::{Advance, GuildView};
use crate::store::MusicManager;
use crate::track::{ResolutionError, TrackInfo};

verus! {

/// Why a voice connection could not be had.
#[derive(Debug, PartialEq, Eq)]
pub enum VoiceJoinError {
    /// The requester is not in a voice channel.
    NotInVoiceChannel,
    /// The transport failed to join the channel.
    JoinFailed,
}

/// Why a play request did not reach the queue.
#[derive(Debug, PartialEq, Eq)]
pub enum PlayError {
    VoiceJoin(VoiceJoinError),
    Resolution(ResolutionError),
    /// The guild was stopped while the query was being resolved.
    Superseded,
}

/// A play request that has found its voice channel, under the stop epoch of
/// its guild at that moment.
#[derive(Debug, Clone, Copy, PartialEq, Eq)]
pub struct PlayTicket {
    pub guild: u64,
    pub channel: u64,
    pub epoch: u64,
}

/// How a play request ended.
#[derive(Debug)]
pub enum PlayOutcome {
    /// The guild was idle: `track` starts now, tagged `generation`.
    Started { track: TrackInfo, generation: u64 },
    /// A track is active: the new one waits at `position` (1 is next).
    Queued { position: usize },
}

/// What a skip asks of the voice transport.
#[derive(Debug, PartialEq, Eq)]
pub enum SkipOutcome {
    /// Stop the track tagged `generation`; its end notification advances.
    StopCurrent { generation: u64 },
    NothingToSkip,
}

/// The result and next guild state of a play request whose query resolved to
/// `resolved`, for a ticket taken under `epoch`.
pub open spec fn play_completed(
    st: GuildView,
    epoch: u64,
    resolved: Result<TrackInfo, ResolutionError>,
    now: i64,
) -> (Result<PlayOutcome, PlayError>, GuildView) {
    if epoch != st.epoch {
        (Err(PlayError::Superseded), st)
    } else {
        match resolved {
            Err(e) => (Err(PlayError::Resolution(e)), st),
            Ok(track) => {
                let queued = st.enqueued(track);
                if st.is_idle() {
                    match queued.began_next(now) {
                        (Advance::Play { track, generation }, next) => (
                            Ok(PlayOutcome::Started { track, generation }),
                            next,
                        ),
                        (Advance::Idle, next) => (Err(PlayError::Superseded), next),
                    }
                } else {
                    (Ok(PlayOutcome::Queued { position: queued.queue.len() as usize }), queued)
                }
            },
        }
    }
}

/// The decisions of playback, over a store of guild states.
pub struct Coordinator {
    pub store: MusicManager,
}

impl Coordinator {
    /// The state of `guild`.
    pub open spec fn guild(self, guild: u64) -> GuildView {
        self.store.guild(guild)
    }

    pub fn new(store: MusicManager) -> (r: Coordinator)
        ensures
            r.store == store,
    {
        Coordinator { store }
    }

    /// First step of a play request: the requester must be in a voice channel.
    /// On success the ticket carries that channel and the guild's stop epoch.
    pub fn request_play(&mut self, guild: u64, requester_channel: Option<u64>) -> (r: Result<
        PlayTicket,
        PlayError,
    >)
        ensures
            final(self).store@ == old(self).store@,
            r == (match requester_channel {
                Some(channel) => Ok(
                    PlayTicket { guild, channel, epoch: old(self).guild(guild).epoch },
                ),
                None => Err(PlayError::VoiceJoin(VoiceJoinError::NotInVoiceChannel)),
            }),
    {
        match requester_channel {
            Some(channel) => {
                let epoch = self.store.current_epoch(guild);
                Ok(PlayTicket { guild, channel, epoch })
            },
            None => Err(PlayError::VoiceJoin(VoiceJoinError::NotInVoiceChannel)),
        }
    }

    /// Last step of a play request, once the query was resolved: a request
    /// whose guild was stopped meanwhile is discarded; a failed resolution
    /// leaves the guild as it was; otherwise the track is queued and, when the
    /// guild was idle, started.
    pub fn complete_play(
        &mut self,
        ticket: PlayTicket,
        resolved: Result<TrackInfo, ResolutionError>,
        now: i64,
    ) -> (r: Result<PlayOutcome, PlayError>)
        ensures
            ({
                let (result, next) = play_completed(
                    old(self).guild(ticket.guild),
                    ticket.epoch,
                    resolved,
                    now,
                );
                &&& r == result
                &&& r is Err ==> final(self).store@ == old(self).store@
                &&& r is Ok ==> final(self).store@ == old(self).store@.insert(ticket.guild, next)
            }),
    {
        let guild = ticket.guild;
        let epoch = self.store.current_epoch(guild);
        if ticket.epoch != epoch {
            return Err(PlayError::Superseded);
        }
        let track = match resolved {
            Err(e) => {
                return Err(PlayError::Resolution(e));
            },
            Ok(track) => track,
        };
        let mut state = self.store.take_guild(guild);
        let idle = state.current.is_none();
        let position = state.enqueue(track);
        if idle {
            let advance = state.begin_next(now);
            self.store.put_guild(guild, state);
            match advance {
                Advance::Play { track, generation } => Ok(PlayOutcome::Started { track, generation }),
                Advance::Idle => Err(PlayError::Superseded),
            }
        } else {
            self.store.put_guild(guild, state);
            Ok(PlayOutcome::Queued { position })
        }
    }

    /// Pops the head of the queue of `guild` and makes it the active track, or
    /// makes the guild idle when the queue is empty. The single entry point for
    /// the first track and for every advance.
    pub fn begin_next(&mut self, guild: u64, now: i64) -> (r: Advance)
        ensures
            r == old(self).guild(guild).began_next(now).0,
            final(self).store@ == old(self).store@.insert(
                guild,
                old(self).guild(guild).began_next(now).1,
            ),
    {
        let mut state = self.store.take_guild(guild);
        let r = state.begin_next(now);
        self.store.put_guild(guild, state);
        r
    }

    /// The end notification of the track tagged `generation` in `guild`; also
    /// what to report when that track failed to start. Advances when the track
    /// is still the active one; returns `None` and changes nothing otherwise.
    pub fn on_track_end(&mut self, guild: u64, generation: u64, now: i64) -> (r: Option<Advance>)
        ensures
            r == old(self).guild(guild).track_ended(generation, now).0,
            r is None ==> final(self).store@ == old(self).store@,
            r is Some ==> final(self).store@ == old(self).store@.insert(
                guild,
                old(self).guild(guild).track_ended(generation, now).1,
            ),
    {
        match self.store.active_generation(guild) {
            Some(g) => if g == generation {
                Some(self.begin_next(guild, now))
            } else {
                None
            },
            None => None,
        }
    }

    /// Skipping asks the transport to stop the active track, whose end
    /// notification then advances; with no active track there is nothing to
    /// skip. The store is not changed.
    pub fn skip(&mut self, guild: u64) -> (r: SkipOutcome)
        ensures
            r == (if old(self).guild(guild).is_idle() {
                SkipOutcome::NothingToSkip
            } else {
                SkipOutcome::StopCurrent { generation: old(self).guild(guild).generation }
            }),
            final(self).store@ == old(self).store@,
    {
        match self.store.active_generation(guild) {
            Some(generation) => SkipOutcome::StopCurrent { generation },
            None => SkipOutcome::NothingToSkip,
        }
    }

    /// Pauses the active track of `guild` at `now`; returns false, changing
    /// nothing, when the guild is idle.
    pub fn pause(&mut self, guild: u64, now: i64) -> (r: bool)
        ensures
            r == !old(self).guild(guild).is_idle(),
            !r ==> final(self).store@ == old(self).store@,
            r ==> final(self).store@ == old(self).store@.insert(
                guild,
                old(self).guild(guild).current_paused(now),
            ),
    {
        if self.store.active_generation(guild).is_some() {
            self.store.pause_current_at(guild, now);
            true
        } else {
            false
        }
    }

    /// Resumes the active track of `guild` at `now`; returns false, changing
    /// nothing, when the guild is idle.
    pub fn resume(&mut self, guild: u64, now: i64) -> (r: bool)
        ensures
            r == !old(self).guild(guild).is_idle(),
            !r ==> final(self).store@ == old(self).store@,
            r ==> final(self).store@ == old(self).store@.insert(
                guild,
                old(self).guild(guild).current_resumed(now),
            ),
    {
        if self.store.active_generation(guild).is_some() {
            self.store.resume_current_at(guild, now);
            true
        } else {
            false
        }
    }

    /// Stops playback in `guild`: the queue is emptied, the active track
    /// discarded, and both tags move on, so that a late end notification or a
    /// request still resolving is discarded.
    pub fn stop(&mut self, guild: u64)
        ensures
            final(self).store@ == old(self).store@.insert(guild, old(self).guild(guild).cleared()),
            final(self).guild(guild).is_idle(),
            final(self).guild(guild).queue.len() == 0,
    {
        self.store.clear_queue(guild);
    }

    /// Shuffles the pending tracks of `guild`; refuses, changing nothing, when
    /// fewer than two are waiting. The active track is never affected.
    pub fn shuffle(&mut self, guild: u64) -> (r: bool)
        ensures
            r == (old(self).guild(guild).queue.len() >= 2),
            !r ==> final(self).guild(guild) == old(self).guild(guild),
            r ==> final(self).guild(guild).queue.to_multiset() == old(self).guild(
                guild,
            ).queue.to_multiset(),
            final(self).guild(guild).current == old(self).guild(guild).current,
            forall|g: u64| g != guild ==> #[trigger] final(self).guild(g) == old(self).guild(g),
    {
        self.store.shuffle_queue(guild)
    }
}

} // verus!
