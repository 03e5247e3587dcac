//! The audio backend, seen from the session controller.
//!
//! The real backend runs on its own executor and is driven exclusively by
//! message passing: every request the session makes is appended to a
//! command queue that the surrounding process hands to the audio engine in
//! order. The struct also mirrors the little backend state the session
//! consults locally — paused flag and volume — and carries the
//! `supports_seek_while_paused` capability flag, so the pause-seek
//! workaround stays localized here rather than at call sites.

use vstd::prelude::*;
use crate::track::Track;

verus! {

/// One request to the audio engine, in the order issued.
///
/// `SettleWait` is the bounded grace period of the pause-seek workaround:
/// the executor sleeps that many milliseconds before handing over the next
/// command, giving the backend time to settle after a seek.
#[derive(Clone, Copy, Debug, PartialEq, Eq, Structural)]
pub enum BackendCmd {
    Play(u64),
    Pause,
    Resume,
    Stop,
    Seek(i64),
    SeekTo(u64),
    SetVolume(u16),
    Skip,
    SettleWait(u64),
}

/// The session's proxy for the audio backend: capability flag, mirrored
/// state, and the queue of commands issued so far.
pub struct PlayerBackend {
    /// Whether the engine can seek while paused; when it cannot, the
    /// session wraps seeks in the unpause-seek-settle-repause sequence.
    pub supports_seek_while_paused: bool,
    /// Whether playback is paused, as last requested.
    pub paused: bool,
    /// The volume last requested.
    pub volume: u16,
    /// Every command issued so far, oldest first.
    pub cmds: Vec<BackendCmd>,
}

impl PlayerBackend {
    /// A backend proxy with no commands issued yet, unpaused, at the
    /// given volume.
    pub fn new(supports_seek_while_paused: bool, volume: u16) -> (b: PlayerBackend)
        ensures
            b.supports_seek_while_paused == supports_seek_while_paused,
            b.paused == false,
            b.volume == volume,
            b.cmds@ =~= Seq::<BackendCmd>::empty(),
    {
        PlayerBackend { supports_seek_while_paused, paused: false, volume, cmds: Vec::new() }
    }

    /// Whether playback is paused, as last requested.
    pub fn is_paused(&self) -> (b: bool)
        ensures
            b == self.paused,
    {
        self.paused
    }

    /// Ask the engine to play the given track; playback is then unpaused.
    pub fn play(&mut self, track: &Track)
        ensures
            final(self).cmds@ == old(self).cmds@.push(BackendCmd::Play(track.id)),
            final(self).paused == false,
            final(self).volume == old(self).volume,
            final(self).supports_seek_while_paused == old(self).supports_seek_while_paused,
    {
        self.cmds.push(BackendCmd::Play(track.id));
        self.paused = false;
    }

    /// Ask the engine to pause.
    pub fn pause(&mut self)
        ensures
            final(self).cmds@ == old(self).cmds@.push(BackendCmd::Pause),
            final(self).paused == true,
            final(self).volume == old(self).volume,
            final(self).supports_seek_while_paused == old(self).supports_seek_while_paused,
    {
        self.cmds.push(BackendCmd::Pause);
        self.paused = true;
    }

    /// Ask the engine to resume.
    pub fn resume(&mut self)
        ensures
            final(self).cmds@ == old(self).cmds@.push(BackendCmd::Resume),
            final(self).paused == false,
            final(self).volume == old(self).volume,
            final(self).supports_seek_while_paused == old(self).supports_seek_while_paused,
    {
        self.cmds.push(BackendCmd::Resume);
        self.paused = false;
    }

    /// Ask the engine to halt playback.
    pub fn stop(&mut self)
        ensures
            final(self).cmds@ == old(self).cmds@.push(BackendCmd::Stop),
            final(self).paused == false,
            final(self).volume == old(self).volume,
            final(self).supports_seek_while_paused == old(self).supports_seek_while_paused,
    {
        self.cmds.push(BackendCmd::Stop);
        self.paused = false;
    }

    /// Ask the engine to seek by a relative offset in seconds.
    pub fn seek(&mut self, offset: i64)
        ensures
            final(self).cmds@ == old(self).cmds@.push(BackendCmd::Seek(offset)),
            final(self).paused == old(self).paused,
            final(self).volume == old(self).volume,
            final(self).supports_seek_while_paused == old(self).supports_seek_while_paused,
    {
        self.cmds.push(BackendCmd::Seek(offset));
    }

    /// Ask the engine to seek to an absolute position in seconds.
    pub fn seek_to(&mut self, position: u64)
        ensures
            final(self).cmds@ == old(self).cmds@.push(BackendCmd::SeekTo(position)),
            final(self).paused == old(self).paused,
            final(self).volume == old(self).volume,
            final(self).supports_seek_while_paused == old(self).supports_seek_while_paused,
    {
        self.cmds.push(BackendCmd::SeekTo(position));
    }

    /// Ask the engine to change the volume.
    pub fn set_volume(&mut self, volume: u16)
        ensures
            final(self).cmds@ == old(self).cmds@.push(BackendCmd::SetVolume(volume)),
            final(self).paused == old(self).paused,
            final(self).volume == volume,
            final(self).supports_seek_while_paused == old(self).supports_seek_while_paused,
    {
        self.cmds.push(BackendCmd::SetVolume(volume));
        self.volume = volume;
    }

    /// Ask the engine to skip to the track now under the playlist cursor.
    pub fn skip(&mut self)
        ensures
            final(self).cmds@ == old(self).cmds@.push(BackendCmd::Skip),
            final(self).paused == old(self).paused,
            final(self).volume == old(self).volume,
            final(self).supports_seek_while_paused == old(self).supports_seek_while_paused,
    {
        self.cmds.push(BackendCmd::Skip);
    }

    /// Queue the bounded settle pause of the pause-seek workaround.
    pub fn settle_wait(&mut self, millis: u64)
        ensures
            final(self).cmds@ == old(self).cmds@.push(BackendCmd::SettleWait(millis)),
            final(self).paused == old(self).paused,
            final(self).volume == old(self).volume,
            final(self).supports_seek_while_paused == old(self).supports_seek_while_paused,
    {
        self.cmds.push(BackendCmd::SettleWait(millis));
    }
}

} // verus!
