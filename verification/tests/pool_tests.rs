use termusic::pool::{DownloadWorkerPool, JobState, PoolError};

fn in_progress_count(p: &DownloadWorkerPool) -> usize {
    p.tracker.jobs.iter().filter(|j| j.state == JobState::InProgress).count()
}

#[test]
fn two_workers_five_jobs_never_more_than_two_in_flight() {
    let mut p = DownloadWorkerPool::new(2);
    for id in 1..=5u64 {
        assert_eq!(p.submit(id), Ok(()));
        assert!(in_progress_count(&p) <= 2);
    }
    assert_eq!(p.start_next_job(), Some(1));
    assert!(in_progress_count(&p) <= 2);
    assert_eq!(p.start_next_job(), Some(2));
    assert!(in_progress_count(&p) <= 2);
    // Both workers busy: nothing more may be claimed.
    assert_eq!(p.start_next_job(), None);
    assert_eq!(in_progress_count(&p), 2);
    // A finished job frees a slot; the FIFO-next job is claimed.
    p.finish_job(1, true);
    assert!(in_progress_count(&p) <= 2);
    assert_eq!(p.start_next_job(), Some(3));
    assert_eq!(in_progress_count(&p), 2);
    p.finish_job(2, false);
    p.finish_job(3, true);
    assert_eq!(p.start_next_job(), Some(4));
    assert_eq!(p.start_next_job(), Some(5));
    assert_eq!(p.start_next_job(), None);
    assert_eq!(in_progress_count(&p), 2);
}

#[test]
fn jobs_are_claimed_fifo() {
    let mut p = DownloadWorkerPool::new(3);
    assert_eq!(p.submit(30), Ok(()));
    assert_eq!(p.submit(10), Ok(()));
    assert_eq!(p.submit(20), Ok(()));
    assert_eq!(p.start_next_job(), Some(30));
    assert_eq!(p.start_next_job(), Some(10));
    assert_eq!(p.start_next_job(), Some(20));
}

#[test]
fn submit_after_shutdown_is_refused() {
    let mut p = DownloadWorkerPool::new(2);
    assert_eq!(p.submit(1), Ok(()));
    p.shutdown();
    assert_eq!(p.submit(2), Err(PoolError::Closed));
    assert_eq!(p.tracker.job_state(2), None);
}

#[test]
fn duplicate_submission_is_refused() {
    let mut p = DownloadWorkerPool::new(2);
    assert_eq!(p.submit(1), Ok(()));
    assert_eq!(p.submit(1), Err(PoolError::DuplicateJob));
}

#[test]
fn in_flight_jobs_may_finish_after_shutdown() {
    let mut p = DownloadWorkerPool::new(1);
    assert_eq!(p.submit(1), Ok(()));
    assert_eq!(p.start_next_job(), Some(1));
    p.shutdown();
    p.finish_job(1, true);
    assert_eq!(p.tracker.job_state(1), Some(JobState::Done));
}

#[test]
fn failed_job_is_surfaced_once_and_never_retried() {
    let mut p = DownloadWorkerPool::new(1);
    assert_eq!(p.submit(1), Ok(()));
    assert_eq!(p.start_next_job(), Some(1));
    p.finish_job(1, false);
    assert_eq!(p.tracker.job_state(1), Some(JobState::Failed));
    // The pool does not hand the failed job out again.
    assert_eq!(p.start_next_job(), None);
    // A repeated completion report changes nothing.
    p.finish_job(1, true);
    assert_eq!(p.tracker.job_state(1), Some(JobState::Failed));
}

#[test]
fn record_progress_updates_percent_only() {
    let mut p = DownloadWorkerPool::new(1);
    assert_eq!(p.submit(1), Ok(()));
    assert_eq!(p.start_next_job(), Some(1));
    p.record_progress(1, 40);
    assert_eq!(p.tracker.jobs[0].percent, 40);
    assert_eq!(p.tracker.jobs[0].state, JobState::InProgress);
    // An unknown identity is ignored.
    p.record_progress(99, 80);
    assert_eq!(p.tracker.jobs.len(), 1);
}

#[test]
fn job_states_follow_the_lifecycle() {
    let mut p = DownloadWorkerPool::new(1);
    assert_eq!(p.tracker.job_state(1), None);
    assert_eq!(p.submit(1), Ok(()));
    assert_eq!(p.tracker.job_state(1), Some(JobState::Queued));
    assert_eq!(p.start_next_job(), Some(1));
    assert_eq!(p.tracker.job_state(1), Some(JobState::InProgress));
    p.finish_job(1, true);
    assert_eq!(p.tracker.job_state(1), Some(JobState::Done));
}
