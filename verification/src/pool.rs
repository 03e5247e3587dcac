//! The bounded download worker pool and its shared progress table.
//!
//! The pool decides which job a free worker may claim next; the workers
//! themselves — the slow network fetches — run outside, report progress
//! and completion back through a channel, and never touch session state
//! directly. Jobs are claimed strictly FIFO, at most `n_workers` are in
//! flight at any instant, a failed job is surfaced once and never retried
//! here, and submission after shutdown is refused while in-flight jobs
//! may still finish.

use vstd::prelude::*;

verus! {

/// The lifecycle of one download job.
#[derive(Clone, Copy, Debug, PartialEq, Eq, Structural)]
pub enum JobState {
    Queued,
    InProgress,
    Done,
    Failed,
}

/// The progress record of one job: identity, state, and percent fetched.
#[derive(Clone, Copy, Debug, PartialEq, Eq, Structural)]
pub struct JobProgress {
    pub id: u64,
    pub state: JobState,
    pub percent: u64,
}

/// Why a submission was refused.
#[derive(Clone, Copy, Debug, PartialEq, Eq, Structural)]
pub enum PoolError {
    /// The pool was shut down; no new jobs are accepted.
    Closed,
    /// A job with this identity is already tracked.
    DuplicateJob,
}

/// How many records in the table are in the given state.
pub open spec fn count_in_state(s: Seq<JobProgress>, st: JobState) -> nat
    decreases s.len(),
{
    if s.len() == 0 {
        0
    } else {
        count_in_state(s.drop_last(), st) + (if s.last().state == st { 1nat } else { 0nat })
    }
}

/// The first record with the given identity, or -1 when none exists.
pub open spec fn index_of_id(s: Seq<JobProgress>, id: u64) -> int
    decreases s.len(),
{
    if s.len() == 0 {
        -1
    } else if s[0].id == id {
        0
    } else {
        let rest = index_of_id(s.drop_first(), id);
        if rest < 0 {
            -1
        } else {
            rest + 1
        }
    }
}

/// The first record in the given state, or -1 when none exists. Records
/// are kept in submission order, so the first `Queued` record is the FIFO
/// next job.
pub open spec fn first_in_state(s: Seq<JobProgress>, st: JobState) -> int
    decreases s.len(),
{
    if s.len() == 0 {
        -1
    } else if s[0].state == st {
        0
    } else {
        let rest = first_in_state(s.drop_first(), st);
        if rest < 0 {
            -1
        } else {
            rest + 1
        }
    }
}

proof fn lemma_count_push(s: Seq<JobProgress>, r: JobProgress, st: JobState)
    ensures
        count_in_state(s.push(r), st) == count_in_state(s, st) + (
            if r.state == st { 1nat } else { 0nat }),
{
    assert(s.push(r).drop_last() =~= s);
}

proof fn lemma_count_update(s: Seq<JobProgress>, i: int, r: JobProgress, st: JobState)
    requires
        0 <= i < s.len(),
    ensures
        count_in_state(s.update(i, r), st) == count_in_state(s, st)
            - (if s[i].state == st { 1nat } else { 0nat })
            + (if r.state == st { 1nat } else { 0nat }),
    decreases s.len(),
{
    if i == s.len() - 1 {
        assert(s.update(i, r).drop_last() =~= s.drop_last());
    } else {
        assert(s.update(i, r).drop_last() =~= s.drop_last().update(i, r));
        lemma_count_update(s.drop_last(), i, r, st);
    }
}

proof fn lemma_index_of_id_found(s: Seq<JobProgress>, id: u64)
    ensures
        index_of_id(s, id) >= 0 ==> index_of_id(s, id) < s.len()
            && s[index_of_id(s, id)].id == id,
        index_of_id(s, id) < 0 ==> forall|k: int| 0 <= k < s.len() ==> s[k].id != id,
    decreases s.len(),
{
    if s.len() > 0 && s[0].id != id {
        lemma_index_of_id_found(s.drop_first(), id);
        if index_of_id(s, id) < 0 {
            assert forall|k: int| 0 <= k < s.len() implies s[k].id != id by {
                if k > 0 {
                    assert(s[k] == s.drop_first()[k - 1]);
                }
            }
        }
    }
}

proof fn lemma_first_in_state_found(s: Seq<JobProgress>, st: JobState)
    ensures
        first_in_state(s, st) >= 0 ==> first_in_state(s, st) < s.len()
            && s[first_in_state(s, st)].state == st,
        first_in_state(s, st) < 0 ==> forall|k: int| 0 <= k < s.len() ==> s[k].state != st,
    decreases s.len(),
{
    if s.len() > 0 && s[0].state != st {
        lemma_first_in_state_found(s.drop_first(), st);
        if first_in_state(s, st) < 0 {
            assert forall|k: int| 0 <= k < s.len() implies s[k].state != st by {
                if k > 0 {
                    assert(s[k] == s.drop_first()[k - 1]);
                }
            }
        }
    }
}

/// The shared progress table: one record per submitted job, in submission
/// order, keyed by job identity. In the running system workers write it
/// behind a lock and the event router reads it; here it is the table's
/// logical content, and every mutation keeps a whole record consistent —
/// no reader sees a torn update.
pub struct DownloadTracker {
    pub jobs: Vec<JobProgress>,
}

impl DownloadTracker {
    /// Identities are unique: each job has exactly one record.
    pub open spec fn wf(self) -> bool {
        forall|i: int, j: int| 0 <= i < j < self.jobs@.len()
            ==> self.jobs@[i].id != self.jobs@[j].id
    }

    /// The record with the given identity, if any.
    pub open spec fn lookup(self, id: u64) -> Option<JobProgress> {
        if index_of_id(self.jobs@, id) >= 0 {
            Some(self.jobs@[index_of_id(self.jobs@, id)])
        } else {
            None
        }
    }

    /// The state of the job with the given identity, if it is tracked.
    pub fn job_state(&self, id: u64) -> (r: Option<JobState>)
        ensures
            r == (match self.lookup(id) {
                Some(rec) => Some(rec.state),
                None => None::<JobState>,
            }),
    {
        let n: usize = self.jobs.len();
        let mut k: usize = 0;
        while k < n
            invariant
                n == self.jobs@.len(),
                0 <= k <= n,
                forall|m: int| 0 <= m < k ==> self.jobs@[m].id != id,
            decreases n - k,
        {
            if self.jobs[k].id == id {
                proof {
                    lemma_index_of_id_unique(self.jobs@, id, k as int);
                }
                return Some(self.jobs[k].state);
            }
            k = k + 1;
        }
        proof {
            lemma_index_of_id_found(self.jobs@, id);
        }
        None
    }
}

proof fn lemma_index_of_id_unique(s: Seq<JobProgress>, id: u64, i: int)
    requires
        0 <= i < s.len(),
        s[i].id == id,
        forall|m: int| 0 <= m < i ==> s[m].id != id,
    ensures
        index_of_id(s, id) == i,
    decreases s.len(),
{
    if i > 0 {
        assert(forall|m: int| 0 <= m < i - 1 ==> s.drop_first()[m].id != id);
        lemma_index_of_id_unique(s.drop_first(), id, i - 1);
    }
}

proof fn lemma_first_in_state_unique(s: Seq<JobProgress>, st: JobState, i: int)
    requires
        0 <= i < s.len(),
        s[i].state == st,
        forall|m: int| 0 <= m < i ==> s[m].state != st,
    ensures
        first_in_state(s, st) == i,
    decreases s.len(),
{
    if i > 0 {
        assert(forall|m: int| 0 <= m < i - 1 ==> s.drop_first()[m].state != st);
        lemma_first_in_state_unique(s.drop_first(), st, i - 1);
    }
}

/// The bounded pool: a fixed worker count set at construction, the shared
/// progress table, and the running count of claimed jobs.
pub struct DownloadWorkerPool {
    /// The fixed number of simultaneous downloads, set at construction.
    pub n_workers: usize,
    /// How many jobs are claimed and not yet finished.
    pub in_flight: usize,
    /// Whether the pool was shut down.
    pub closed: bool,
    /// The shared progress table.
    pub tracker: DownloadTracker,
}

impl DownloadWorkerPool {
    /// The at-most-N-in-flight invariant: the in-flight count agrees with
    /// the table and never exceeds the worker count.
    pub open spec fn wf(self) -> bool {
        &&& self.tracker.wf()
        &&& self.in_flight == count_in_state(self.tracker.jobs@, JobState::InProgress)
        &&& self.in_flight <= self.n_workers
    }

    /// An open pool with the given worker count and no jobs.
    pub fn new(n_workers: usize) -> (p: DownloadWorkerPool)
        ensures
            p.wf(),
            p.n_workers == n_workers,
            p.in_flight == 0,
            p.closed == false,
            p.tracker.jobs@ =~= Seq::<JobProgress>::empty(),
    {
        DownloadWorkerPool {
            n_workers,
            in_flight: 0,
            closed: false,
            tracker: DownloadTracker { jobs: Vec::new() },
        }
    }

    /// Enqueue a job without blocking. Refused exactly when the pool is
    /// shut down, or when the identity is already tracked — a failed job
    /// is never retried by the pool, so re-submission is the caller's
    /// explicit decision under a fresh identity.
    pub fn submit(&mut self, id: u64) -> (r: Result<(), PoolError>)
        requires
            old(self).wf(),
        ensures
            final(self).wf(),
            final(self).n_workers == old(self).n_workers,
            final(self).closed == old(self).closed,
            old(self).closed ==> r == Err::<(), PoolError>(PoolError::Closed)
                && final(self).tracker.jobs@ == old(self).tracker.jobs@
                && final(self).in_flight == old(self).in_flight,
            !old(self).closed && old(self).tracker.lookup(id) is Some ==> r == Err::<(),
                PoolError>(PoolError::DuplicateJob)
                && final(self).tracker.jobs@ == old(self).tracker.jobs@
                && final(self).in_flight == old(self).in_flight,
            !old(self).closed && old(self).tracker.lookup(id) is None ==> r == Ok::<(),
                PoolError>(())
                && final(self).tracker.jobs@ == old(self).tracker.jobs@.push(
                    JobProgress { id, state: JobState::Queued, percent: 0 })
                && final(self).in_flight == old(self).in_flight,
    {
        if self.closed {
            return Err(PoolError::Closed);
        }
        if self.tracker.job_state(id).is_some() {
            return Err(PoolError::DuplicateJob);
        }
        let ghost s0 = self.tracker.jobs@;
        let rec = JobProgress { id, state: JobState::Queued, percent: 0 };
        self.tracker.jobs.push(rec);
        proof {
            lemma_count_push(s0, rec, JobState::InProgress);
            lemma_index_of_id_found(s0, id);
            assert forall|i: int, j: int| 0 <= i < j < self.tracker.jobs@.len()
                implies self.tracker.jobs@[i].id != self.tracker.jobs@[j].id by {
                if j == s0.len() {
                    assert(self.tracker.jobs@[i] == s0[i]);
                }
            }
        }
        Ok(())
    }

    /// Claim the FIFO-next queued job for a free worker: the earliest
    /// `Queued` record turns `InProgress` and its identity is returned.
    /// Returns nothing when all workers are busy or no job is queued —
    /// never more than `n_workers` jobs are in flight.
    pub fn start_next_job(&mut self) -> (r: Option<u64>)
        requires
            old(self).wf(),
        ensures
            final(self).wf(),
            final(self).n_workers == old(self).n_workers,
            final(self).closed == old(self).closed,
            ({
                let q = first_in_state(old(self).tracker.jobs@, JobState::Queued);
                &&& old(self).in_flight == old(self).n_workers || q < 0 ==> (
                    r is None
                    && final(self).tracker.jobs@ == old(self).tracker.jobs@
                    && final(self).in_flight == old(self).in_flight
                )
                &&& old(self).in_flight < old(self).n_workers && q >= 0 ==> (
                    r == Some(old(self).tracker.jobs@[q].id)
                    && final(self).tracker.jobs@ == old(self).tracker.jobs@.update(
                        q,
                        JobProgress {
                            state: JobState::InProgress,
                            ..old(self).tracker.jobs@[q]
                        },
                    )
                    && final(self).in_flight == old(self).in_flight + 1
                )
            }),
    {
        if self.in_flight >= self.n_workers {
            return None;
        }
        let n: usize = self.tracker.jobs.len();
        let mut k: usize = 0;
        while k < n
            invariant
                *self == *old(self),
                old(self).wf(),
                old(self).in_flight < old(self).n_workers,
                n == self.tracker.jobs@.len(),
                0 <= k <= n,
                forall|m: int| 0 <= m < k ==> self.tracker.jobs@[m].state != JobState::Queued,
            decreases n - k,
        {
            let rec = self.tracker.jobs[k];
            if matches!(rec.state, JobState::Queued) {
                proof {
                    lemma_first_in_state_unique(self.tracker.jobs@, JobState::Queued, k as int);
                    lemma_count_update(
                        self.tracker.jobs@,
                        k as int,
                        JobProgress { state: JobState::InProgress, ..rec },
                        JobState::InProgress,
                    );
                }
                let updated = JobProgress { state: JobState::InProgress, ..rec };
                self.tracker.jobs.set(k, updated);
                self.in_flight = self.in_flight + 1;
                return Some(updated.id);
            }
            k = k + 1;
        }
        proof {
            lemma_first_in_state_found(self.tracker.jobs@, JobState::Queued);
        }
        None
    }

    /// Record a progress report for a job: its percent is updated, its
    /// state untouched. Unknown identities are ignored.
    pub fn record_progress(&mut self, id: u64, percent: u64)
        requires
            old(self).wf(),
        ensures
            final(self).wf(),
            final(self).n_workers == old(self).n_workers,
            final(self).closed == old(self).closed,
            final(self).in_flight == old(self).in_flight,
            final(self).tracker.jobs@ == (match old(self).tracker.lookup(id) {
                Some(rec) => old(self).tracker.jobs@.update(
                    index_of_id(old(self).tracker.jobs@, id),
                    JobProgress { percent, ..rec },
                ),
                None => old(self).tracker.jobs@,
            }),
    {
        let n: usize = self.tracker.jobs.len();
        let mut k: usize = 0;
        while k < n
            invariant
                *self == *old(self),
                old(self).wf(),
                n == self.tracker.jobs@.len(),
                0 <= k <= n,
                forall|m: int| 0 <= m < k ==> self.tracker.jobs@[m].id != id,
            decreases n - k,
        {
            let rec = self.tracker.jobs[k];
            if rec.id == id {
                proof {
                    lemma_index_of_id_unique(self.tracker.jobs@, id, k as int);
                    lemma_count_update(
                        self.tracker.jobs@,
                        k as int,
                        JobProgress { percent, ..rec },
                        JobState::InProgress,
                    );
                }
                self.tracker.jobs.set(k, JobProgress { percent, ..rec });
                return;
            }
            k = k + 1;
        }
        proof {
            lemma_index_of_id_found(self.tracker.jobs@, id);
        }
    }

    /// Record a worker's terminal report for an in-flight job: its record
    /// turns `Done` or `Failed` — surfaced exactly once, never retried —
    /// and the worker slot is freed. A job not in flight is ignored, so a
    /// stale or repeated completion changes nothing.
    pub fn finish_job(&mut self, id: u64, success: bool)
        requires
            old(self).wf(),
        ensures
            final(self).wf(),
            final(self).n_workers == old(self).n_workers,
            final(self).closed == old(self).closed,
            ({
                let looked = old(self).tracker.lookup(id);
                &&& (match looked {
                    Some(rec) => rec.state != JobState::InProgress,
                    None => true,
                }) ==> final(self).tracker.jobs@ == old(self).tracker.jobs@
                    && final(self).in_flight == old(self).in_flight
                &&& (looked matches Some(rec) && rec.state == JobState::InProgress) ==> (
                    final(self).tracker.jobs@ == old(self).tracker.jobs@.update(
                        index_of_id(old(self).tracker.jobs@, id),
                        JobProgress {
                            state: if success { JobState::Done } else { JobState::Failed },
                            ..old(self).tracker.jobs@[index_of_id(old(self).tracker.jobs@, id)]
                        },
                    )
                    && final(self).in_flight == old(self).in_flight - 1
                )
            }),
    {
        let n: usize = self.tracker.jobs.len();
        let mut k: usize = 0;
        while k < n
            invariant
                *self == *old(self),
                old(self).wf(),
                n == self.tracker.jobs@.len(),
                0 <= k <= n,
                forall|m: int| 0 <= m < k ==> self.tracker.jobs@[m].id != id,
            decreases n - k,
        {
            let rec = self.tracker.jobs[k];
            if rec.id == id {
                proof {
                    lemma_index_of_id_unique(self.tracker.jobs@, id, k as int);
                }
                if matches!(rec.state, JobState::InProgress) {
                    let terminal = if success { JobState::Done } else { JobState::Failed };
                    let updated = JobProgress { state: terminal, ..rec };
                    proof {
                        lemma_count_update(
                            self.tracker.jobs@, k as int, updated, JobState::InProgress);
                        lemma_count_at_position(self.tracker.jobs@, k as int,
                            JobState::InProgress);
                    }
                    self.tracker.jobs.set(k, updated);
                    self.in_flight = self.in_flight - 1;
                }
                return;
            }
            k = k + 1;
        }
        proof {
            lemma_index_of_id_found(self.tracker.jobs@, id);
        }
    }

    /// Shut the pool down: no new submissions are accepted; jobs already
    /// queued or in flight are unaffected and may still be claimed and
    /// finished.
    pub fn shutdown(&mut self)
        requires
            old(self).wf(),
        ensures
            final(self).wf(),
            final(self).closed == true,
            final(self).n_workers == old(self).n_workers,
            final(self).in_flight == old(self).in_flight,
            final(self).tracker.jobs@ == old(self).tracker.jobs@,
    {
        self.closed = true;
    }
}

proof fn lemma_count_at_position(s: Seq<JobProgress>, i: int, st: JobState)
    requires
        0 <= i < s.len(),
        s[i].state == st,
    ensures
        count_in_state(s, st) >= 1,
    decreases s.len(),
{
    if i < s.len() - 1 {
        lemma_count_at_position(s.drop_last(), i, st);
    }
}

/// At-most-N-in-flight: in a well-formed pool, the progress table never
/// shows more than `n_workers` jobs in state `InProgress`, whatever was
/// submitted or finished.
pub proof fn lemma_at_most_n_in_flight(p: DownloadWorkerPool)
    requires
        p.wf(),
    ensures
        count_in_state(p.tracker.jobs@, JobState::InProgress) <= p.n_workers,
{
}

} // verus!
