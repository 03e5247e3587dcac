//! Position stores: key-value persistence of seconds played, keyed by
//! track identity.
//!
//! Two instances exist at runtime — one for music, one for podcasts — and
//! are lent to the session controller by reference. A read that finds no
//! record reports `NoRecord`; the session treats every such failure as
//! "start from zero" and never surfaces it.

use vstd::prelude::*;
use std::collections::HashMap;
use crate::track::Track;

verus! {

/// Why a position read failed.
#[derive(Clone, Copy, Debug, PartialEq, Eq, Structural)]
pub enum PersistenceError {
    /// No position has ever been stored for this track.
    NoRecord,
}

/// A store of last-played positions: track identity to seconds played.
pub struct PositionStore {
    positions: HashMap<u64, u64>,
}

impl PositionStore {
    /// The stored records as a mathematical map from track identity to
    /// seconds.
    pub closed spec fn view(self) -> Map<u64, u64> {
        self.positions@
    }

    /// What a read returns: the stored seconds, or `NoRecord` when the
    /// track has no record.
    pub open spec fn lookup(self, id: u64) -> Result<u64, PersistenceError> {
        if self@.contains_key(id) {
            Ok(self@[id])
        } else {
            Err(PersistenceError::NoRecord)
        }
    }

    /// An empty store.
    pub fn new() -> (s: PositionStore)
        ensures
            s@ =~= Map::<u64, u64>::empty(),
    {
        PositionStore { positions: HashMap::new() }
    }

    /// The seconds last played for this track, or `NoRecord` if none were
    /// ever stored.
    pub fn get_last_position(&self, track: &Track) -> (r: Result<u64, PersistenceError>)
        ensures
            r == self.lookup(track.id),
    {
        match self.positions.get(&track.id) {
            Some(secs) => Ok(*secs),
            None => Err(PersistenceError::NoRecord),
        }
    }

    /// Store the seconds played for this track, replacing any earlier
    /// record.
    pub fn set_last_position(&mut self, track: &Track, secs: u64)
        ensures
            final(self)@ == old(self)@.insert(track.id, secs),
    {
        self.positions.insert(track.id, secs);
    }
}

/// Consume-once: when a restore has rewritten a track's record to zero —
/// the store's map is the old map with zero inserted at the track's
/// identity — the next read of that track yields exactly zero.
pub proof fn lemma_restore_consumes_position(before: PositionStore, after: PositionStore, id: u64)
    requires
        after@ == before@.insert(id, 0u64),
    ensures
        after.lookup(id) == Ok::<u64, PersistenceError>(0u64),
{
}

} // verus!
