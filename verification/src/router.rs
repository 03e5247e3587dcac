//! The inbound event router: the single point where background work
//! re-enters the control loop.
//!
//! Background executors — the audio backend, the download workers, the
//! metadata search — publish events into channels. Once per tick the
//! surrounding process drains every channel without blocking and hands the
//! batch here; each event becomes exactly one mutation of the session or
//! of the pool's progress table, applied strictly in batch order, so order
//! within one channel is preserved. A track-ended report is checked
//! against the current track's identity token and discarded when stale.

use vstd::prelude::*;
use crate::backend::BackendCmd;
use crate::playlist::{advance_cursor, Loop};
use crate::pool::{index_of_id, DownloadWorkerPool, JobProgress, JobState};
use crate::session::{Notice, SessionController};
use crate::track::Track;

verus! {

/// One event drained from a background channel.
#[derive(Clone, Copy, Debug, PartialEq, Eq, Structural)]
pub enum InboundEvent {
    /// The backend reports elapsed position and total duration, in
    /// seconds.
    Progress(u64, u64),
    /// The backend reports that the track with this identity token ended.
    TrackEnded(u64),
    /// The backend reports a failure; surfaced as a notice, never fatal.
    BackendError,
    /// A worker reports percent fetched for a download job.
    DownloadProgress(u64, u64),
    /// A worker reports a download job finished successfully.
    DownloadDone(u64),
    /// A worker reports a download job failed; surfaced exactly once.
    DownloadFailed(u64),
    /// The metadata search reports a result, by identity.
    SearchResult(u64),
}

/// Everything routing can touch, as one mathematical value: the visible
/// session state plus the pool's progress table.
#[verifier::ext_equal]
pub struct RouterModel {
    pub time_pos: u64,
    pub cursor: Option<int>,
    pub tracks: Seq<Track>,
    pub loop_mode: Loop,
    pub paused: bool,
    pub cmds: Seq<BackendCmd>,
    pub notices: Seq<Notice>,
    pub search_results: Seq<u64>,
    pub redraw: bool,
    pub jobs: Seq<JobProgress>,
    pub in_flight: int,
}

/// The routed state of a session and a pool.
pub open spec fn model_of(s: SessionController, p: DownloadWorkerPool) -> RouterModel {
    RouterModel {
        time_pos: s.time_pos,
        cursor: s.playlist.cursor(),
        tracks: s.playlist.tracks@,
        loop_mode: s.playlist.loop_mode,
        paused: s.backend.paused,
        cmds: s.backend.cmds@,
        notices: s.notices@,
        search_results: s.search_results@,
        redraw: s.redraw,
        jobs: p.tracker.jobs@,
        in_flight: p.in_flight as int,
    }
}

/// What one routed event does to the state: the transition each event is
/// translated into, stated as a function.
pub open spec fn step(m: RouterModel, e: InboundEvent) -> RouterModel {
    match e {
        InboundEvent::Progress(pos, total) => RouterModel {
            time_pos: pos,
            redraw: m.redraw || pos != m.time_pos,
            ..m
        },
        InboundEvent::TrackEnded(token) => {
            let fresh = match m.cursor {
                Some(i) => 0 <= i < m.tracks.len() && m.tracks[i].id == token,
                None => false,
            };
            if fresh {
                let advanced = advance_cursor(m.loop_mode, m.cursor, m.tracks.len() as int);
                match advanced {
                    Some(j) => RouterModel {
                        cursor: advanced,
                        paused: false,
                        cmds: m.cmds.push(BackendCmd::Play(m.tracks[j].id)),
                        notices: m.notices.push(Notice::AddAndPlay(m.tracks[j].id)).push(
                            Notice::Update(m.tracks[j].id)),
                        time_pos: 0,
                        redraw: true,
                        ..m
                    },
                    None => RouterModel { cursor: None, time_pos: 0, redraw: true, ..m },
                }
            } else {
                m
            }
        },
        InboundEvent::BackendError => RouterModel {
            notices: m.notices.push(Notice::Error),
            redraw: true,
            ..m
        },
        InboundEvent::DownloadProgress(id, pct) => {
            let at = index_of_id(m.jobs, id);
            if at >= 0 {
                RouterModel {
                    jobs: m.jobs.update(at, JobProgress { percent: pct, ..m.jobs[at] }),
                    redraw: true,
                    ..m
                }
            } else {
                m
            }
        },
        InboundEvent::DownloadDone(id) => finish_step(m, id, JobState::Done),
        InboundEvent::DownloadFailed(id) => finish_step(m, id, JobState::Failed),
        InboundEvent::SearchResult(id) => RouterModel {
            search_results: m.search_results.push(id),
            redraw: true,
            ..m
        },
    }
}

/// The transition of a terminal download report: an in-flight job's record
/// turns terminal and its worker slot is freed; anything else is a stale
/// or unknown report and changes nothing.
pub open spec fn finish_step(m: RouterModel, id: u64, terminal: JobState) -> RouterModel {
    let at = index_of_id(m.jobs, id);
    if at >= 0 && m.jobs[at].state == JobState::InProgress {
        RouterModel {
            jobs: m.jobs.update(at, JobProgress { state: terminal, ..m.jobs[at] }),
            in_flight: m.in_flight - 1,
            redraw: true,
            ..m
        }
    } else {
        m
    }
}

/// The state after a whole batch, applied in order, oldest first.
pub open spec fn run_events(m: RouterModel, evs: Seq<InboundEvent>) -> RouterModel
    decreases evs.len(),
{
    if evs.len() == 0 {
        m
    } else {
        run_events(step(m, evs[0]), evs.drop_first())
    }
}

proof fn lemma_run_events_push(m: RouterModel, evs: Seq<InboundEvent>, e: InboundEvent)
    ensures
        run_events(m, evs.push(e)) == step(run_events(m, evs), e),
    decreases evs.len(),
{
    if evs.len() == 0 {
        assert(evs.push(e)[0] == e);
        assert(evs.push(e).drop_first() =~= Seq::<InboundEvent>::empty());
        assert(run_events(m, evs.push(e)) == run_events(
            step(m, e), evs.push(e).drop_first()));
        assert(run_events(step(m, e), evs.push(e).drop_first()) == step(m, e));
        assert(run_events(m, evs) == m);
    } else {
        assert(evs.push(e)[0] == evs[0]);
        assert(evs.push(e).drop_first() =~= evs.drop_first().push(e));
        lemma_run_events_push(step(m, evs[0]), evs.drop_first(), e);
        assert(run_events(m, evs.push(e)) == run_events(
            step(m, evs[0]), evs.drop_first().push(e)));
        assert(run_events(m, evs) == run_events(step(m, evs[0]), evs.drop_first()));
    }
}

/// Route one drained event: exactly one mutation of the session or the
/// progress table, as `step` states it.
pub fn route_one(
    session: &mut SessionController,
    pool: &mut DownloadWorkerPool,
    event: &InboundEvent,
)
    requires
        old(session).wf(),
        old(pool).wf(),
    ensures
        final(session).wf(),
        final(pool).wf(),
        model_of(*final(session), *final(pool)) == step(
            model_of(*old(session), *old(pool)), *event),
        SessionController::same_config(*old(session), *final(session)),
        final(session).backend.volume == old(session).backend.volume,
        final(pool).closed == old(pool).closed,
        final(pool).n_workers == old(pool).n_workers,
{
    match *event {
        InboundEvent::Progress(pos, _total) => {
            if pos != session.time_pos {
                session.time_pos = pos;
                session.redraw = true;
            }
        }
        InboundEvent::TrackEnded(token) => {
            let fresh = match session.playlist.current_track() {
                Some(t) => t.id == token,
                None => false,
            };
            if fresh {
                session.playlist.handle_advance();
                let cur = session.playlist.current_track();
                if let Some(t) = cur {
                    session.backend.play(&t);
                }
                session.on_track_advance();
            }
        }
        InboundEvent::BackendError => {
            session.notices.push(Notice::Error);
            session.redraw = true;
        }
        InboundEvent::DownloadProgress(id, pct) => {
            let known = pool.tracker.job_state(id).is_some();
            pool.record_progress(id, pct);
            if known {
                session.redraw = true;
            }
        }
        InboundEvent::DownloadDone(id) => {
            let in_flight = matches!(pool.tracker.job_state(id), Some(JobState::InProgress));
            pool.finish_job(id, true);
            if in_flight {
                session.redraw = true;
            }
        }
        InboundEvent::DownloadFailed(id) => {
            let in_flight = matches!(pool.tracker.job_state(id), Some(JobState::InProgress));
            pool.finish_job(id, false);
            if in_flight {
                session.redraw = true;
            }
        }
        InboundEvent::SearchResult(id) => {
            session.search_results.push(id);
            session.redraw = true;
        }
    }
    proof {
        assert(model_of(*session, *pool) =~= step(
            model_of(*old(session), *old(pool)), *event));
    }
}

/// Route a whole drained batch in order, oldest event first: the final
/// state is the fold of `step` over the batch, so order within each
/// channel is preserved and nothing beyond the batch is consumed.
pub fn route_events(
    session: &mut SessionController,
    pool: &mut DownloadWorkerPool,
    events: &Vec<InboundEvent>,
)
    requires
        old(session).wf(),
        old(pool).wf(),
    ensures
        final(session).wf(),
        final(pool).wf(),
        model_of(*final(session), *final(pool)) == run_events(
            model_of(*old(session), *old(pool)), events@),
        SessionController::same_config(*old(session), *final(session)),
        final(session).backend.volume == old(session).backend.volume,
        final(pool).closed == old(pool).closed,
        final(pool).n_workers == old(pool).n_workers,
{
    let n: usize = events.len();
    let mut k: usize = 0;
    proof {
        assert(events@.take(0) =~= Seq::<InboundEvent>::empty());
    }
    while k < n
        invariant
            session.wf(),
            pool.wf(),
            n == events@.len(),
            0 <= k <= n,
            model_of(*session, *pool) == run_events(
                model_of(*old(session), *old(pool)), events@.take(k as int)),
            SessionController::same_config(*old(session), *session),
            session.backend.volume == old(session).backend.volume,
            pool.closed == old(pool).closed,
            pool.n_workers == old(pool).n_workers,
        decreases n - k,
    {
        route_one(session, pool, &events[k]);
        proof {
            assert(events@.take(k + 1) =~= events@.take(k as int).push(events@[k as int]));
            lemma_run_events_push(
                model_of(*old(session), *old(pool)),
                events@.take(k as int),
                events@[k as int],
            );
        }
        k = k + 1;
    }
    proof {
        assert(events@.take(n as int) =~= events@);
    }
}

} // verus!
