//! The session controller: the playback state machine.
//!
//! It orchestrates the playlist, the backend command queue, and the two
//! position stores, under a last-played-position policy. The stores are
//! owned by the surrounding process and lent in by reference; every method
//! states exactly which records it reads or writes.

use vstd::prelude::*;
use crate::backend::{BackendCmd, PlayerBackend};
use crate::playlist::{prev_cursor, Loop, Playlist};
use crate::store::PositionStore;
use crate::track::{MediaType, Track};

verus! {

/// The threshold, in seconds, above which the automatic policy persists a
/// track's position.
pub const DEFAULT_POSITION_THRESHOLD_SECS: u64 = 600;

/// The grace period of the pause-seek workaround, in milliseconds.
pub const SEEK_SETTLE_MILLIS: u64 = 50;

/// The nominal duration carried by the synthetic zero-progress notice that
/// `stop` emits so listeners reset their display.
pub const SYNTHETIC_PROGRESS_TOTAL_SECS: u64 = 60;

/// When the elapsed position of a track is persisted and restored.
#[derive(Clone, Copy, Debug, PartialEq, Eq, Structural)]
pub enum LastPositionPolicy {
    /// Persist every track that has a media type.
    Always,
    /// Never persist.
    Never,
    /// Persist only tracks whose duration is at least the threshold.
    AutoAboveThreshold(u64),
}

/// A best-effort notification to listeners: auxiliary sinks (desktop
/// integration) and the progress display. Consumers may fail or be absent;
/// nothing here depends on them.
#[derive(Clone, Copy, Debug, PartialEq, Eq, Structural)]
pub enum Notice {
    /// A synthetic progress report (position, total), emitted on stop so
    /// displays reset.
    Progress(u64, u64),
    /// A new track (by identity) started playing.
    AddAndPlay(u64),
    /// Playback resumed.
    Resume,
    /// Playback paused at the given position in seconds.
    Pause(u64),
    /// The current track (by identity) should be re-announced.
    Update(u64),
    /// Teardown: clear cover art and reset titles.
    Clear,
    /// A backend failure was reported; playback continues.
    Error,
}

/// Whether the policy persists this track's position at all. A track
/// without a media type is never persisted.
pub open spec fn should_persist(policy: LastPositionPolicy, t: Track) -> bool {
    match policy {
        LastPositionPolicy::Never => false,
        LastPositionPolicy::Always => t.media_type is Some,
        LastPositionPolicy::AutoAboveThreshold(th) => t.media_type is Some
            && t.duration_secs >= th,
    }
}

/// The store of the given media type after a save of `secs` for the
/// current track: updated exactly when the policy persists that track and
/// its media type matches.
pub open spec fn saved_store(
    policy: LastPositionPolicy,
    cur: Option<Track>,
    media: MediaType,
    store: Map<u64, u64>,
    secs: u64,
) -> Map<u64, u64> {
    match cur {
        Some(t) => if should_persist(policy, t) && t.media_type == Some(media) {
            store.insert(t.id, secs)
        } else {
            store
        },
        None => store,
    }
}

/// Whether a restore finds a position: the policy persists the current
/// track and the store matching its media type holds a record for it.
pub open spec fn restore_hit(
    policy: LastPositionPolicy,
    cur: Option<Track>,
    music: Map<u64, u64>,
    podcast: Map<u64, u64>,
) -> bool {
    match cur {
        Some(t) => should_persist(policy, t) && (match t.media_type {
            Some(MediaType::Music) => music.contains_key(t.id),
            Some(MediaType::Podcast) => podcast.contains_key(t.id),
            None => false,
        }),
        None => false,
    }
}

/// The position a restore hands to the backend, read from the store
/// matching the current track's media type.
pub open spec fn restore_source_pos(
    cur: Option<Track>,
    music: Map<u64, u64>,
    podcast: Map<u64, u64>,
) -> u64 {
    match cur {
        Some(t) => match t.media_type {
            Some(MediaType::Music) => music[t.id],
            Some(MediaType::Podcast) => podcast[t.id],
            None => 0,
        },
        None => 0,
    }
}

/// The store of the given media type after a restore: rewritten to zero at
/// the current track exactly when the restore hit it there, so a restored
/// position is consumed exactly once.
pub open spec fn restored_store(
    policy: LastPositionPolicy,
    cur: Option<Track>,
    media: MediaType,
    store: Map<u64, u64>,
) -> Map<u64, u64> {
    match cur {
        Some(t) => if should_persist(policy, t) && t.media_type == Some(media)
            && store.contains_key(t.id) {
            store.insert(t.id, 0u64)
        } else {
            store
        },
        None => store,
    }
}

/// The playback state machine: playlist, backend proxy, elapsed position,
/// persistence policy, and the outbound notices of the current tick.
pub struct SessionController {
    pub playlist: Playlist,
    pub backend: PlayerBackend,
    /// Seconds elapsed in the current track; reset on stop and on track
    /// change.
    pub time_pos: u64,
    pub policy: LastPositionPolicy,
    /// The configured playback volume, restored after the pause-seek
    /// workaround.
    pub config_volume: u16,
    /// Best-effort notifications emitted so far, oldest first.
    pub notices: Vec<Notice>,
    /// Metadata-search results routed in so far, by identity.
    pub search_results: Vec<u64>,
    /// Whether visible state changed since the last redraw.
    pub redraw: bool,
}

impl SessionController {
    pub open spec fn wf(self) -> bool {
        self.playlist.wf()
    }

    /// The track under the playlist cursor, if any.
    pub open spec fn current(self) -> Option<Track> {
        self.playlist.current_track_spec()
    }

    /// Field-wise equality of everything a session observes.
    pub open spec fn congruent(a: SessionController, b: SessionController) -> bool {
        &&& b.playlist.tracks@ == a.playlist.tracks@
        &&& b.playlist.current_track_index == a.playlist.current_track_index
        &&& b.playlist.loop_mode == a.playlist.loop_mode
        &&& b.backend.supports_seek_while_paused == a.backend.supports_seek_while_paused
        &&& b.backend.paused == a.backend.paused
        &&& b.backend.volume == a.backend.volume
        &&& b.backend.cmds@ == a.backend.cmds@
        &&& b.time_pos == a.time_pos
        &&& b.policy == a.policy
        &&& b.config_volume == a.config_volume
        &&& b.notices@ == a.notices@
        &&& b.search_results@ == a.search_results@
        &&& b.redraw == a.redraw
    }

    /// The fixed configuration of a session: never changed by any method.
    pub open spec fn same_config(a: SessionController, b: SessionController) -> bool {
        &&& b.policy == a.policy
        &&& b.config_volume == a.config_volume
        &&& b.backend.supports_seek_while_paused == a.backend.supports_seek_while_paused
        &&& b.playlist.loop_mode == a.playlist.loop_mode
    }

    /// A stopped session over an empty playlist, redraw pending.
    pub fn new(
        policy: LastPositionPolicy,
        loop_mode: Loop,
        supports_seek_while_paused: bool,
        config_volume: u16,
    ) -> (s: SessionController)
        ensures
            s.wf(),
            s.playlist.tracks@ =~= Seq::<Track>::empty(),
            s.playlist.current_track_index is None,
            s.playlist.loop_mode == loop_mode,
            s.backend.supports_seek_while_paused == supports_seek_while_paused,
            s.backend.paused == false,
            s.backend.volume == config_volume,
            s.backend.cmds@ =~= Seq::<BackendCmd>::empty(),
            s.time_pos == 0,
            s.policy == policy,
            s.config_volume == config_volume,
            s.notices@ =~= Seq::<Notice>::empty(),
            s.search_results@ =~= Seq::<u64>::empty(),
            s.redraw == true,
    {
        SessionController {
            playlist: Playlist::new(loop_mode),
            backend: PlayerBackend::new(supports_seek_while_paused, config_volume),
            time_pos: 0,
            policy,
            config_volume,
            notices: Vec::new(),
            search_results: Vec::new(),
            redraw: true,
        }
    }

    /// Mark the interface for redrawing.
    pub fn force_redraw(&mut self)
        ensures
            final(self).redraw == true,
            final(self).playlist == old(self).playlist,
            final(self).backend == old(self).backend,
            final(self).time_pos == old(self).time_pos,
            final(self).policy == old(self).policy,
            final(self).config_volume == old(self).config_volume,
            final(self).notices == old(self).notices,
            final(self).search_results == old(self).search_results,
    {
        self.redraw = true;
    }

    /// Persist the elapsed position of the current track, dispatching on
    /// the policy and on the track's media type: music positions go to the
    /// music store, podcast positions to the podcast store, and a track
    /// without a media type is never persisted.
    pub fn save_last_position(
        &self,
        music: &mut PositionStore,
        podcast: &mut PositionStore,
    )
        requires
            self.wf(),
        ensures
            final(music)@ == saved_store(
                self.policy, self.current(), MediaType::Music, old(music)@, self.time_pos),
            final(podcast)@ == saved_store(
                self.policy, self.current(), MediaType::Podcast, old(podcast)@, self.time_pos),
    {
        let cur = self.playlist.current_track();
        if let Some(track) = cur {
            let persist: bool = match self.policy {
                LastPositionPolicy::Always => true,
                LastPositionPolicy::Never => false,
                LastPositionPolicy::AutoAboveThreshold(th) => track.duration() >= th,
            };
            if persist {
                match track.media_type {
                    Some(MediaType::Music) => music.set_last_position(&track, self.time_pos),
                    Some(MediaType::Podcast) => podcast.set_last_position(&track, self.time_pos),
                    None => {}
                }
            }
        }
    }

    /// Restore the persisted position of the current track, if the policy
    /// persists it and the matching store holds a record: the backend is
    /// asked to seek there, and the record is immediately rewritten to
    /// zero so it is consumed exactly once. A miss is silent: playback
    /// starts from zero and no error surfaces.
    pub fn restore_last_position(
        &mut self,
        music: &mut PositionStore,
        podcast: &mut PositionStore,
    )
        requires
            old(self).wf(),
        ensures
            final(self).wf(),
            final(self).playlist == old(self).playlist,
            final(self).time_pos == old(self).time_pos,
            final(self).notices == old(self).notices,
            final(self).search_results == old(self).search_results,
            final(self).redraw == old(self).redraw,
            Self::same_config(*old(self), *final(self)),
            final(self).backend.paused == old(self).backend.paused,
            final(self).backend.volume == old(self).backend.volume,
            final(self).backend.cmds@ == (
                if restore_hit(old(self).policy, old(self).current(), old(music)@, old(podcast)@) {
                    old(self).backend.cmds@.push(BackendCmd::SeekTo(
                        restore_source_pos(old(self).current(), old(music)@, old(podcast)@)))
                } else {
                    old(self).backend.cmds@
                }
            ),
            final(music)@ == restored_store(
                old(self).policy, old(self).current(), MediaType::Music, old(music)@),
            final(podcast)@ == restored_store(
                old(self).policy, old(self).current(), MediaType::Podcast, old(podcast)@),
    {
        let cur = self.playlist.current_track();
        if let Some(track) = cur {
            let persist: bool = match self.policy {
                LastPositionPolicy::Always => true,
                LastPositionPolicy::Never => false,
                LastPositionPolicy::AutoAboveThreshold(th) => track.duration() >= th,
            };
            if persist {
                match track.media_type {
                    Some(MediaType::Music) => {
                        match music.get_last_position(&track) {
                            Ok(pos) => {
                                self.backend.seek_to(pos);
                                music.set_last_position(&track, 0);
                            }
                            Err(_) => {}
                        }
                    }
                    Some(MediaType::Podcast) => {
                        match podcast.get_last_position(&track) {
                            Ok(pos) => {
                                self.backend.seek_to(pos);
                                podcast.set_last_position(&track, 0);
                            }
                            Err(_) => {}
                        }
                    }
                    None => {}
                }
            }
        }
    }

    /// Start playback when the playlist is stopped: place the cursor on
    /// the first track, hand it to the backend, then attempt to restore
    /// its persisted position. On an empty playlist nothing happens — no
    /// backend command is issued and the session stays stopped.
    pub fn run(&mut self, music: &mut PositionStore, podcast: &mut PositionStore)
        requires
            old(self).wf(),
        ensures
            final(self).wf(),
            old(self).playlist.current_track_index is Some ==> (
                Self::congruent(*old(self), *final(self))
                && final(music)@ == old(music)@
                && final(podcast)@ == old(podcast)@
            ),
            old(self).playlist.current_track_index is None
                && old(self).playlist.tracks@.len() == 0 ==> (
                Self::congruent(*old(self), *final(self))
                && final(music)@ == old(music)@
                && final(podcast)@ == old(podcast)@
            ),
            old(self).playlist.current_track_index is None
                && old(self).playlist.tracks@.len() > 0 ==> ({
                let t = old(self).playlist.tracks@[0];
                let started = Some(t);
                &&& final(self).playlist.current_track_index == Some(0usize)
                &&& final(self).playlist.tracks@ == old(self).playlist.tracks@
                &&& final(self).backend.paused == false
                &&& final(self).backend.volume == old(self).backend.volume
                &&& final(self).backend.cmds@ == (
                    if restore_hit(old(self).policy, started, old(music)@, old(podcast)@) {
                        old(self).backend.cmds@.push(BackendCmd::Play(t.id)).push(
                            BackendCmd::SeekTo(restore_source_pos(started, old(music)@, old(podcast)@)))
                    } else {
                        old(self).backend.cmds@.push(BackendCmd::Play(t.id))
                    }
                )
                &&& final(music)@ == restored_store(
                    old(self).policy, started, MediaType::Music, old(music)@)
                &&& final(podcast)@ == restored_store(
                    old(self).policy, started, MediaType::Podcast, old(podcast)@)
                &&& final(self).time_pos == old(self).time_pos
                &&& final(self).notices == old(self).notices
                &&& final(self).search_results == old(self).search_results
                &&& final(self).redraw == old(self).redraw
                &&& Self::same_config(*old(self), *final(self))
            }),
    {
        if self.playlist.is_stopped() {
            self.playlist.start();
            let cur = self.playlist.current_track();
            if let Some(track) = cur {
                self.backend.play(&track);
                self.restore_last_position(music, podcast);
            }
        }
    }

    /// Stop playback from any state: persist the current position first,
    /// then reset the elapsed position, drop the playlist cursor, halt the
    /// backend, emit a synthetic zero-progress notice and a teardown
    /// notice, and mark the interface for redrawing.
    pub fn stop(&mut self, music: &mut PositionStore, podcast: &mut PositionStore)
        requires
            old(self).wf(),
        ensures
            final(self).wf(),
            final(music)@ == saved_store(
                old(self).policy, old(self).current(), MediaType::Music, old(music)@,
                old(self).time_pos),
            final(podcast)@ == saved_store(
                old(self).policy, old(self).current(), MediaType::Podcast, old(podcast)@,
                old(self).time_pos),
            final(self).time_pos == 0,
            final(self).playlist.tracks@ == old(self).playlist.tracks@,
            final(self).playlist.current_track_index is None,
            final(self).backend.cmds@ == old(self).backend.cmds@.push(BackendCmd::Stop),
            final(self).backend.paused == false,
            final(self).backend.volume == old(self).backend.volume,
            final(self).notices@ == old(self).notices@.push(
                Notice::Progress(0, SYNTHETIC_PROGRESS_TOTAL_SECS)).push(Notice::Clear),
            final(self).search_results == old(self).search_results,
            final(self).redraw == true,
            Self::same_config(*old(self), *final(self)),
    {
        self.save_last_position(music, podcast);
        self.time_pos = 0;
        self.playlist.stop();
        self.backend.stop();
        self.notices.push(Notice::Progress(0, SYNTHETIC_PROGRESS_TOTAL_SECS));
        self.notices.push(Notice::Clear);
        self.redraw = true;
    }

    /// Toggle between paused and playing. A no-op when the playlist is
    /// empty and no track is current; otherwise the backend is asked to
    /// resume or pause, listeners are notified — a pause notice carries
    /// the elapsed position for external display — and the progress
    /// representation is refreshed. The elapsed position itself never
    /// changes.
    pub fn toggle_pause(&mut self)
        requires
            old(self).wf(),
        ensures
            final(self).wf(),
            ({
                let skip = old(self).playlist.tracks@.len() == 0
                    && old(self).current() is None;
                &&& skip ==> Self::congruent(*old(self), *final(self))
                &&& !skip ==> {
                    &&& final(self).playlist == old(self).playlist
                    &&& final(self).time_pos == old(self).time_pos
                    &&& final(self).search_results == old(self).search_results
                    &&& final(self).redraw == true
                    &&& Self::same_config(*old(self), *final(self))
                    &&& final(self).backend.volume == old(self).backend.volume
                    &&& final(self).backend.paused == !old(self).backend.paused
                    &&& final(self).backend.cmds@ == old(self).backend.cmds@.push(
                        if old(self).backend.paused { BackendCmd::Resume } else { BackendCmd::Pause })
                    &&& final(self).notices@ == old(self).notices@.push(
                        if old(self).backend.paused { Notice::Resume }
                        else { Notice::Pause(old(self).time_pos) })
                }
            }),
    {
        if self.playlist.is_empty() && self.playlist.current_track().is_none() {
            return;
        }
        if self.backend.is_paused() {
            self.backend.resume();
            self.notices.push(Notice::Resume);
        } else {
            self.backend.pause();
            self.notices.push(Notice::Pause(self.time_pos));
        }
        self.redraw = true;
    }

    /// Seek by a relative offset. When the backend cannot seek while
    /// paused and playback is paused, the seek is wrapped in the
    /// workaround sequence: volume to zero, seek, a bounded settle wait,
    /// re-pause, and the configured volume restored — so the pause state
    /// and audible volume are unchanged at the end.
    pub fn seek(&mut self, offset: i64)
        requires
            old(self).wf(),
        ensures
            final(self).wf(),
            final(self).playlist == old(self).playlist,
            final(self).time_pos == old(self).time_pos,
            final(self).notices == old(self).notices,
            final(self).search_results == old(self).search_results,
            Self::same_config(*old(self), *final(self)),
            ({
                let quirk = old(self).backend.paused
                    && !old(self).backend.supports_seek_while_paused;
                &&& quirk ==> {
                    &&& final(self).backend.cmds@ == old(self).backend.cmds@
                        .push(BackendCmd::SetVolume(0))
                        .push(BackendCmd::Seek(offset))
                        .push(BackendCmd::SettleWait(SEEK_SETTLE_MILLIS))
                        .push(BackendCmd::Pause)
                        .push(BackendCmd::SetVolume(old(self).config_volume))
                    &&& final(self).backend.paused == true
                    &&& final(self).backend.volume == old(self).config_volume
                    &&& final(self).redraw == true
                }
                &&& !quirk ==> {
                    &&& final(self).backend.cmds@ == old(self).backend.cmds@.push(
                        BackendCmd::Seek(offset))
                    &&& final(self).backend.paused == old(self).backend.paused
                    &&& final(self).backend.volume == old(self).backend.volume
                    &&& final(self).redraw == old(self).redraw
                }
            }),
    {
        let paused = self.backend.is_paused();
        if paused && !self.backend.supports_seek_while_paused {
            self.backend.set_volume(0);
            self.backend.seek(offset);
            self.redraw = true;
            self.backend.settle_wait(SEEK_SETTLE_MILLIS);
            self.backend.pause();
            self.backend.set_volume(self.config_volume);
        } else {
            self.backend.seek(offset);
        }
    }

    /// Navigate to the previous track. Under `Single` or `Queue` loop
    /// policy this is a no-op: neither the cursor moves nor is any backend
    /// command issued. On an empty playlist it stops the session. Otherwise
    /// the cursor moves one step backward — wrapping from the first track
    /// to the last — and the backend is asked to skip there; on a
    /// single-element queue the cursor stays put but the skip is still
    /// issued, an intentional audible restart.
    pub fn previous(&mut self, music: &mut PositionStore, podcast: &mut PositionStore)
        requires
            old(self).wf(),
        ensures
            final(self).wf(),
            matches!(old(self).playlist.loop_mode, Loop::Single | Loop::Queue) ==> (
                Self::congruent(*old(self), *final(self))
                && final(music)@ == old(music)@
                && final(podcast)@ == old(podcast)@
            ),
            old(self).playlist.loop_mode == Loop::Playlist
                && old(self).playlist.tracks@.len() == 0 ==> (
                final(music)@ == old(music)@
                && final(podcast)@ == old(podcast)@
                && final(self).time_pos == 0
                && final(self).playlist.tracks@ == old(self).playlist.tracks@
                && final(self).playlist.current_track_index is None
                && final(self).backend.cmds@ == old(self).backend.cmds@.push(BackendCmd::Stop)
                && final(self).notices@ == old(self).notices@.push(
                    Notice::Progress(0, SYNTHETIC_PROGRESS_TOTAL_SECS)).push(Notice::Clear)
                && final(self).redraw == true
                && Self::same_config(*old(self), *final(self))
            ),
            old(self).playlist.loop_mode == Loop::Playlist
                && old(self).playlist.tracks@.len() > 0 ==> (
                final(music)@ == old(music)@
                && final(podcast)@ == old(podcast)@
                && final(self).playlist.tracks@ == old(self).playlist.tracks@
                && final(self).playlist.cursor() == prev_cursor(
                    old(self).playlist.cursor(), old(self).playlist.tracks@.len() as int)
                && final(self).backend.cmds@ == old(self).backend.cmds@.push(BackendCmd::Skip)
                && final(self).backend.paused == old(self).backend.paused
                && final(self).time_pos == old(self).time_pos
                && final(self).notices == old(self).notices
                && final(self).redraw == old(self).redraw
                && Self::same_config(*old(self), *final(self))
            ),
    {
        match self.playlist.loop_mode {
            Loop::Single | Loop::Queue => {
                return;
            }
            Loop::Playlist => {}
        }
        if self.playlist.is_empty() {
            self.stop(music, podcast);
            return;
        }
        self.playlist.handle_previous();
        self.backend.skip();
    }

    /// React to a track change (natural end or explicit skip): announce
    /// the new current track to listeners, reset the elapsed position, and
    /// mark the interface for redrawing. Listener failures are the
    /// consumers' concern; playback state here is unaffected.
    pub fn on_track_advance(&mut self)
        requires
            old(self).wf(),
        ensures
            final(self).wf(),
            final(self).playlist == old(self).playlist,
            final(self).backend == old(self).backend,
            final(self).time_pos == 0,
            final(self).redraw == true,
            final(self).search_results == old(self).search_results,
            Self::same_config(*old(self), *final(self)),
            final(self).notices@ == (match old(self).current() {
                Some(t) => old(self).notices@.push(Notice::AddAndPlay(t.id)).push(
                    Notice::Update(t.id)),
                None => old(self).notices@,
            }),
    {
        let cur = self.playlist.current_track();
        if let Some(track) = cur {
            self.notices.push(Notice::AddAndPlay(track.id));
            self.notices.push(Notice::Update(track.id));
        }
        self.time_pos = 0;
        self.redraw = true;
    }
}

/// The threshold policy persists exactly the tracks at or above the
/// threshold: one second shorter and no store is ever read or written for
/// it; at the threshold (with a media type) it is.
pub proof fn lemma_auto_threshold(t: Track, threshold: u64)
    ensures
        t.duration_secs < threshold ==> !should_persist(
            LastPositionPolicy::AutoAboveThreshold(threshold), t),
        t.duration_secs >= threshold && t.media_type is Some ==> should_persist(
            LastPositionPolicy::AutoAboveThreshold(threshold), t),
{
}

} // verus!
