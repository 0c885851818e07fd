//! The guild queue store: for each guild, its queue, its active track and its
//! generation tags, held in a concurrent map keyed by guild id.
//!
//! Every operation takes the store by `&mut`: the guild's entry is taken out,
//! changed and put back within one call, so no read-modify-write is split.

use vstd::prelude::*;
use dashmap::DashMap;
use crate::guild::{GuildState, GuildView};
use crate::track::TrackInfo;
use crate::tracker::{clock_now_millis, CurrentTrack};

verus! {

#[verifier::external_type_specification]
#[verifier::external_body]
#[verifier::reject_recursive_types(K)]
#[verifier::reject_recursive_types(V)]
#[verifier::reject_recursive_types(S)]
pub struct ExDashMap<K, V, S>(DashMap<K, V, S>);

/// The concurrent map that holds each guild's state.
pub type GuildTable = DashMap<u64, GuildState>;

/// The entries of a guild table.
pub uninterp spec fn guild_entries(table: GuildTable) -> Map<u64, GuildState>;

/// Relies on `DashMap::new`: a map with no entries.
#[verifier::external_body]
fn table_new() -> (r: GuildTable)
    ensures
        guild_entries(r).dom().is_empty(),
{
    DashMap::new()
}

/// Relies on `DashMap::remove`: returns the entry under `guild`, if there is
/// one, and removes it.
#[verifier::external_body]
fn table_take(table: &mut GuildTable, guild: u64) -> (r: Option<GuildState>)
    ensures
        r == (if guild_entries(*old(table)).contains_key(guild) {
            Some(guild_entries(*old(table))[guild])
        } else {
            None
        }),
        guild_entries(*final(table)) == guild_entries(*old(table)).remove(guild),
{
    table.remove(&guild).map(|(_, state)| state)
}

/// Relies on `DashMap::insert`: `state` becomes the entry under `guild`.
#[verifier::external_body]
fn table_put(table: &mut GuildTable, guild: u64, state: GuildState)
    ensures
        guild_entries(*final(table)) == guild_entries(*old(table)).insert(guild, state),
{
    table.insert(guild, state);
}

fn clone_tracks(tracks: &Vec<TrackInfo>) -> (r: Vec<TrackInfo>)
    ensures
        r@ == tracks@,
{
    let mut out: Vec<TrackInfo> = Vec::new();
    for i in 0..tracks.len()
        invariant
            out@ == tracks@.take(i as int),
    {
        out.push(tracks[i].clone());
    }
    out
}

/// The per-guild queues and active tracks.
pub struct MusicManager {
    guilds: GuildTable,
}

impl View for MusicManager {
    type V = Map<u64, GuildView>;

    closed spec fn view(&self) -> Map<u64, GuildView> {
        guild_entries(self.guilds).map_values(|s: GuildState| s@)
    }
}

impl MusicManager {
    /// The state of `guild`; a guild without an entry is fresh.
    pub open spec fn guild(self, guild: u64) -> GuildView {
        if self@.contains_key(guild) {
            self@[guild]
        } else {
            GuildView::fresh()
        }
    }

    pub fn new() -> (r: MusicManager)
        ensures
            r@ == Map::<u64, GuildView>::empty(),
    {
        let r = MusicManager { guilds: table_new() };
        assert(r@ =~= Map::<u64, GuildView>::empty());
        r
    }

    /// Takes the entry of `guild` out of the store.
    fn take_entry(&mut self, guild: u64) -> (r: Option<GuildState>)
        ensures
            r matches Some(s) ==> old(self)@.contains_key(guild) && s@ == old(self)@[guild],
            r is None ==> !old(self)@.contains_key(guild),
            final(self)@ == old(self)@.remove(guild),
    {
        let r = table_take(&mut self.guilds, guild);
        assert(final(self)@ =~= old(self)@.remove(guild));
        r
    }

    /// Takes the state of `guild` out of the store, fresh when it has none.
    pub(crate) fn take_guild(&mut self, guild: u64) -> (r: GuildState)
        ensures
            r@ == old(self).guild(guild),
            final(self)@ == old(self)@.remove(guild),
    {
        match self.take_entry(guild) {
            Some(s) => s,
            None => GuildState::fresh(),
        }
    }

    /// Stores `state` as the state of `guild`.
    pub(crate) fn put_guild(&mut self, guild: u64, state: GuildState)
        ensures
            final(self)@ == old(self)@.insert(guild, state@),
    {
        table_put(&mut self.guilds, guild, state);
        assert(final(self)@ =~= old(self)@.insert(guild, state@));
    }

    /// Puts back an entry that `take_entry` returned.
    fn restore_entry(&mut self, guild: u64, entry: Option<GuildState>)
        ensures
            entry is Some ==> final(self)@ == old(self)@.insert(guild, entry->0@),
            entry is None ==> final(self)@ == old(self)@,
    {
        match entry {
            Some(s) => self.put_guild(guild, s),
            None => {},
        }
    }

    /// Appends `track` to the queue of `guild`; returns the new queue length.
    pub fn add_to_queue(&mut self, guild: u64, track: TrackInfo) -> (r: usize)
        ensures
            final(self)@ == old(self)@.insert(guild, old(self).guild(guild).enqueued(track)),
            r == old(self).guild(guild).queue.len() + 1,
    {
        let mut state = self.take_guild(guild);
        let r = state.enqueue(track);
        self.put_guild(guild, state);
        r
    }

    /// A copy of the queue of `guild`, head first.
    pub fn get_queue(&mut self, guild: u64) -> (r: Vec<TrackInfo>)
        ensures
            r@ == old(self).guild(guild).queue,
            final(self)@ == old(self)@,
    {
        let entry = self.take_entry(guild);
        let r = match &entry {
            Some(s) => clone_tracks(&s.queue),
            None => Vec::new(),
        };
        self.restore_entry(guild, entry);
        assert(final(self)@ =~= old(self)@);
        r
    }

    /// The number of tracks waiting in the queue of `guild`.
    pub fn queue_length(&mut self, guild: u64) -> (r: usize)
        ensures
            r == old(self).guild(guild).queue.len(),
            final(self)@ == old(self)@,
    {
        let entry = self.take_entry(guild);
        let r = match &entry {
            Some(s) => s.queue.len(),
            None => 0,
        };
        self.restore_entry(guild, entry);
        assert(final(self)@ =~= old(self)@);
        r
    }

    /// Empties the queue of `guild` and discards its active track.
    pub fn clear_queue(&mut self, guild: u64)
        ensures
            final(self)@ == old(self)@.insert(guild, old(self).guild(guild).cleared()),
    {
        let mut state = self.take_guild(guild);
        state.clear();
        self.put_guild(guild, state);
    }

    /// Removes and returns the head of the queue of `guild`.
    pub fn skip_current(&mut self, guild: u64) -> (r: Option<TrackInfo>)
        ensures
            r == old(self).guild(guild).dequeued().0,
            final(self)@ == old(self)@.insert(guild, old(self).guild(guild).dequeued().1),
    {
        let mut state = self.take_guild(guild);
        let r = state.dequeue();
        self.put_guild(guild, state);
        r
    }

    /// Randomizes the order of the queue of `guild` when it holds at least two
    /// tracks; reports whether it did. The active track is not touched.
    pub fn shuffle_queue(&mut self, guild: u64) -> (r: bool)
        ensures
            r == (old(self).guild(guild).queue.len() >= 2),
            !r ==> final(self).guild(guild) == old(self).guild(guild),
            r ==> final(self).guild(guild).queue.to_multiset() == old(self).guild(
                guild,
            ).queue.to_multiset(),
            final(self).guild(guild).queue.len() == old(self).guild(guild).queue.len(),
            final(self).guild(guild).current == old(self).guild(guild).current,
            final(self).guild(guild).generation == old(self).guild(guild).generation,
            final(self).guild(guild).epoch == old(self).guild(guild).epoch,
            forall|g: u64| g != guild ==> #[trigger] final(self).guild(g) == old(self).guild(g),
    {
        let mut state = self.take_guild(guild);
        let r = state.shuffle();
        self.put_guild(guild, state);
        r
    }

    /// Makes `track` the active track of `guild`, started at `now`, under a new
    /// generation.
    pub fn set_current_track_at(&mut self, guild: u64, track: TrackInfo, now: i64)
        ensures
            final(self)@ == old(self)@.insert(
                guild,
                old(self).guild(guild).with_current(track, now),
            ),
    {
        let mut state = self.take_guild(guild);
        state.set_current(track, now);
        self.put_guild(guild, state);
    }

    /// Makes `track` the active track of `guild`, started now.
    pub fn set_current_track(&mut self, guild: u64, track: TrackInfo)
        ensures
            exists|now: i64|
                final(self)@ == old(self)@.insert(
                    guild,
                    #[trigger] old(self).guild(guild).with_current(track, now),
                ),
    {
        let now = clock_now_millis();
        self.set_current_track_at(guild, track, now);
    }

    /// A copy of the active track of `guild`, if any.
    pub fn get_current_track(&mut self, guild: u64) -> (r: Option<CurrentTrack>)
        ensures
            r == old(self).guild(guild).current,
            final(self)@ == old(self)@,
    {
        let entry = self.take_entry(guild);
        let r = match &entry {
            Some(s) => match &s.current {
                Some(c) => Some(c.clone()),
                None => None,
            },
            None => None,
        };
        self.restore_entry(guild, entry);
        assert(final(self)@ =~= old(self)@);
        r
    }

    /// Pauses the active track of `guild` at `now`; nothing happens when the
    /// guild is idle.
    pub fn pause_current_at(&mut self, guild: u64, now: i64)
        ensures
            final(self)@ == old(self)@.insert(guild, old(self).guild(guild).current_paused(now)),
    {
        let mut state = self.take_guild(guild);
        state.pause_current(now);
        self.put_guild(guild, state);
    }

    /// Pauses the active track of `guild` now.
    pub fn pause_current(&mut self, guild: u64)
        ensures
            exists|now: i64|
                final(self)@ == old(self)@.insert(
                    guild,
                    #[trigger] old(self).guild(guild).current_paused(now),
                ),
    {
        let now = clock_now_millis();
        self.pause_current_at(guild, now);
    }

    /// Resumes the active track of `guild` at `now`; nothing happens when the
    /// guild is idle.
    pub fn resume_current_at(&mut self, guild: u64, now: i64)
        ensures
            final(self)@ == old(self)@.insert(guild, old(self).guild(guild).current_resumed(now)),
    {
        let mut state = self.take_guild(guild);
        state.resume_current(now);
        self.put_guild(guild, state);
    }

    /// Resumes the active track of `guild` now.
    pub fn resume_current(&mut self, guild: u64)
        ensures
            exists|now: i64|
                final(self)@ == old(self)@.insert(
                    guild,
                    #[trigger] old(self).guild(guild).current_resumed(now),
                ),
    {
        let now = clock_now_millis();
        self.resume_current_at(guild, now);
    }

    /// The generation of the active track of `guild`, or `None` when the guild
    /// is idle.
    pub fn active_generation(&mut self, guild: u64) -> (r: Option<u64>)
        ensures
            r == (if old(self).guild(guild).is_idle() {
                None
            } else {
                Some(old(self).guild(guild).generation)
            }),
            final(self)@ == old(self)@,
    {
        let entry = self.take_entry(guild);
        let r = match &entry {
            Some(s) => if s.current.is_some() {
                Some(s.generation)
            } else {
                None
            },
            None => None,
        };
        self.restore_entry(guild, entry);
        assert(final(self)@ =~= old(self)@);
        r
    }

    /// The stop epoch of `guild`.
    pub fn current_epoch(&mut self, guild: u64) -> (r: u64)
        ensures
            r == old(self).guild(guild).epoch,
            final(self)@ == old(self)@,
    {
        let entry = self.take_entry(guild);
        let r = match &entry {
            Some(s) => s.epoch,
            None => 0,
        };
        self.restore_entry(guild, entry);
        assert(final(self)@ =~= old(self)@);
        r
    }
}

} // verus!
