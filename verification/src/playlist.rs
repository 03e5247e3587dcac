//! The playlist: an ordered queue of tracks with a cursor and a loop policy.
//!
//! The cursor is either absent (the playlist is stopped) or a valid index
//! into the queue. Navigation is pure data logic; the session controller
//! decides when a cursor move must also be echoed to the audio backend.

use vstd::prelude::*;
use crate::track::Track;

verus! {

/// The loop policy governing forward and backward navigation.
///
/// `Single` replays the same index forever, `Queue` wraps to the first
/// track past the end, and `Playlist` advances once through the queue and
/// stops past the last track.
#[derive(Clone, Copy, Debug, PartialEq, Eq, Structural)]
pub enum Loop {
    Single,
    Queue,
    Playlist,
}

/// Where the cursor lands after one backward step: one index down, wrapping
/// from the first track to the last. An absent cursor stays absent.
pub open spec fn prev_cursor(cursor: Option<int>, len: int) -> Option<int> {
    match cursor {
        None => None,
        Some(i) => Some(if i == 0 { len - 1 } else { i - 1 }),
    }
}

/// Where the cursor lands after one forward step under the given loop
/// policy. An absent cursor stays absent.
pub open spec fn advance_cursor(mode: Loop, cursor: Option<int>, len: int) -> Option<int> {
    match cursor {
        None => None,
        Some(i) => match mode {
            Loop::Single => Some(i),
            Loop::Queue => Some(if i + 1 == len { 0 } else { i + 1 }),
            Loop::Playlist => if i + 1 < len { Some(i + 1) } else { None },
        },
    }
}

/// An ordered queue of tracks, a cursor, and the loop policy.
pub struct Playlist {
    pub tracks: Vec<Track>,
    pub current_track_index: Option<usize>,
    pub loop_mode: Loop,
}

impl Playlist {
    /// The cursor as a mathematical value.
    pub open spec fn cursor(self) -> Option<int> {
        match self.current_track_index {
            None => None,
            Some(i) => Some(i as int),
        }
    }

    /// Well-formedness: the cursor is absent or a valid index. In
    /// particular an empty queue forces an absent cursor.
    pub open spec fn wf(self) -> bool {
        match self.current_track_index {
            None => true,
            Some(i) => i < self.tracks@.len(),
        }
    }

    /// The track under the cursor, if any.
    pub open spec fn current_track_spec(self) -> Option<Track> {
        match self.current_track_index {
            None => None,
            Some(i) => Some(self.tracks@[i as int]),
        }
    }

    /// An empty, stopped playlist under the given loop policy.
    pub fn new(loop_mode: Loop) -> (p: Playlist)
        ensures
            p.wf(),
            p.tracks@ =~= Seq::<Track>::empty(),
            p.current_track_index is None,
            p.loop_mode == loop_mode,
    {
        Playlist { tracks: Vec::new(), current_track_index: None, loop_mode }
    }

    /// Append a track at the end of the queue; the cursor does not move.
    pub fn add_track(&mut self, t: Track)
        requires
            old(self).wf(),
        ensures
            final(self).wf(),
            final(self).tracks@ == old(self).tracks@.push(t),
            final(self).current_track_index == old(self).current_track_index,
            final(self).loop_mode == old(self).loop_mode,
    {
        self.tracks.push(t);
    }

    /// Whether the queue holds no tracks.
    pub fn is_empty(&self) -> (b: bool)
        ensures
            b == (self.tracks@.len() == 0),
    {
        self.tracks.len() == 0
    }

    /// Whether the playlist is stopped, that is, the cursor is absent.
    pub fn is_stopped(&self) -> (b: bool)
        ensures
            b == (self.current_track_index is None),
    {
        self.current_track_index.is_none()
    }

    /// The track under the cursor, if any.
    pub fn current_track(&self) -> (t: Option<Track>)
        requires
            self.wf(),
        ensures
            t == self.current_track_spec(),
    {
        match self.current_track_index {
            None => None,
            Some(i) => Some(self.tracks[i]),
        }
    }

    /// Move the cursor one step backward, wrapping from the first track to
    /// the last. A stopped playlist stays stopped.
    pub fn handle_previous(&mut self)
        requires
            old(self).wf(),
        ensures
            final(self).wf(),
            final(self).cursor() == prev_cursor(old(self).cursor(), old(self).tracks@.len() as int),
            final(self).tracks@ == old(self).tracks@,
            final(self).loop_mode == old(self).loop_mode,
    {
        match self.current_track_index {
            None => {}
            Some(i) => {
                if i == 0 {
                    self.current_track_index = Some(self.tracks.len() - 1);
                } else {
                    self.current_track_index = Some(i - 1);
                }
            }
        }
    }

    /// Move the cursor one step forward under the loop policy: `Single`
    /// stays put, `Queue` wraps to the first track past the end, and
    /// `Playlist` stops past the last track.
    pub fn handle_advance(&mut self)
        requires
            old(self).wf(),
        ensures
            final(self).wf(),
            final(self).cursor() == advance_cursor(
                old(self).loop_mode,
                old(self).cursor(),
                old(self).tracks@.len() as int,
            ),
            final(self).tracks@ == old(self).tracks@,
            final(self).loop_mode == old(self).loop_mode,
    {
        match self.current_track_index {
            None => {}
            Some(i) => {
                let len: usize = self.tracks.len();
                match self.loop_mode {
                    Loop::Single => {}
                    Loop::Queue => {
                        if i + 1 == len {
                            self.current_track_index = Some(0);
                        } else {
                            self.current_track_index = Some(i + 1);
                        }
                    }
                    Loop::Playlist => {
                        if i + 1 < len {
                            self.current_track_index = Some(i + 1);
                        } else {
                            self.current_track_index = None;
                        }
                    }
                }
            }
        }
    }

    /// Place the cursor on the first track when the playlist is stopped
    /// and the queue is not empty; otherwise do nothing.
    pub fn start(&mut self)
        requires
            old(self).wf(),
        ensures
            final(self).wf(),
            final(self).tracks@ == old(self).tracks@,
            final(self).loop_mode == old(self).loop_mode,
            final(self).current_track_index == (
                if old(self).current_track_index is None && old(self).tracks@.len() > 0 {
                    Some(0usize)
                } else {
                    old(self).current_track_index
                }
            ),
    {
        if self.current_track_index.is_none() && self.tracks.len() > 0 {
            self.current_track_index = Some(0);
        }
    }

    /// Drop the cursor: the playlist becomes stopped; the queue is kept.
    pub fn stop(&mut self)
        requires
            old(self).wf(),
        ensures
            final(self).wf(),
            final(self).tracks@ == old(self).tracks@,
            final(self).loop_mode == old(self).loop_mode,
            final(self).current_track_index is None,
    {
        self.current_track_index = None;
    }
}

/// Round trip of backward then forward navigation: under the `Queue`
/// policy, one `handle_previous` followed by one `handle_advance` returns
/// the cursor to where it started, on every queue and cursor position —
/// the wrap at the first track is undone exactly by the wrap at the last.
pub proof fn lemma_previous_then_advance_round_trip(cursor: Option<int>, len: int)
    requires
        len > 0,
        cursor matches Some(i) ==> 0 <= i < len,
    ensures
        advance_cursor(Loop::Queue, prev_cursor(cursor, len), len) == cursor,
{
}

} // verus!
