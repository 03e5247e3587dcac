use termusic::backend::BackendCmd;
use termusic::playlist::Loop;
use termusic::pool::{DownloadWorkerPool, JobState};
use termusic::router::{route_events, route_one, InboundEvent};
use termusic::session::{LastPositionPolicy, Notice, SessionController};
use termusic::track::{MediaType, Track};

fn music_track(id: u64) -> Track {
    Track { id, duration_secs: 300, media_type: Some(MediaType::Music) }
}

fn playing_session(track_ids: &[u64], loop_mode: Loop) -> SessionController {
    let mut s = SessionController::new(LastPositionPolicy::Always, loop_mode, true, 80);
    for id in track_ids {
        s.playlist.add_track(music_track(*id));
    }
    s.playlist.start();
    s.redraw = false;
    s
}

#[test]
fn progress_event_updates_time_pos_and_redraw() {
    let mut s = playing_session(&[5], Loop::Playlist);
    let mut p = DownloadWorkerPool::new(2);
    route_one(&mut s, &mut p, &InboundEvent::Progress(17, 300));
    assert_eq!(s.time_pos, 17);
    assert!(s.redraw);
}

#[test]
fn unchanged_progress_does_not_force_a_redraw() {
    let mut s = playing_session(&[5], Loop::Playlist);
    s.time_pos = 17;
    let mut p = DownloadWorkerPool::new(2);
    route_one(&mut s, &mut p, &InboundEvent::Progress(17, 300));
    assert_eq!(s.time_pos, 17);
    assert!(!s.redraw);
}

#[test]
fn events_within_a_batch_apply_in_fifo_order() {
    let mut s = playing_session(&[5], Loop::Playlist);
    let mut p = DownloadWorkerPool::new(2);
    let batch = vec![
        InboundEvent::Progress(10, 300),
        InboundEvent::Progress(11, 300),
        InboundEvent::SearchResult(1),
        InboundEvent::SearchResult(2),
    ];
    route_events(&mut s, &mut p, &batch);
    assert_eq!(s.time_pos, 11);
    assert_eq!(s.search_results, vec![1, 2]);
}

#[test]
fn stale_track_ended_is_discarded() {
    let mut s = playing_session(&[5, 6], Loop::Playlist);
    let mut p = DownloadWorkerPool::new(2);
    route_one(&mut s, &mut p, &InboundEvent::TrackEnded(99));
    assert_eq!(s.playlist.current_track_index, Some(0));
    assert_eq!(s.backend.cmds.len(), 0);
    assert!(!s.redraw);
}

#[test]
fn track_ended_advances_and_plays_the_next_track() {
    let mut s = playing_session(&[5, 6], Loop::Playlist);
    s.time_pos = 280;
    let mut p = DownloadWorkerPool::new(2);
    route_one(&mut s, &mut p, &InboundEvent::TrackEnded(5));
    assert_eq!(s.playlist.current_track_index, Some(1));
    assert_eq!(s.backend.cmds, vec![BackendCmd::Play(6)]);
    assert_eq!(s.notices, vec![Notice::AddAndPlay(6), Notice::Update(6)]);
    assert_eq!(s.time_pos, 0);
    assert!(s.redraw);
}

#[test]
fn track_ended_past_the_last_track_stops() {
    let mut s = playing_session(&[5], Loop::Playlist);
    let mut p = DownloadWorkerPool::new(2);
    route_one(&mut s, &mut p, &InboundEvent::TrackEnded(5));
    assert_eq!(s.playlist.current_track_index, None);
    assert_eq!(s.backend.cmds.len(), 0);
    assert_eq!(s.time_pos, 0);
}

#[test]
fn track_ended_wraps_under_queue_mode() {
    let mut s = playing_session(&[5, 6], Loop::Queue);
    s.playlist.current_track_index = Some(1);
    let mut p = DownloadWorkerPool::new(2);
    route_one(&mut s, &mut p, &InboundEvent::TrackEnded(6));
    assert_eq!(s.playlist.current_track_index, Some(0));
    assert_eq!(s.backend.cmds, vec![BackendCmd::Play(5)]);
}

#[test]
fn backend_error_becomes_a_notice() {
    let mut s = playing_session(&[5], Loop::Playlist);
    let mut p = DownloadWorkerPool::new(2);
    route_one(&mut s, &mut p, &InboundEvent::BackendError);
    assert_eq!(s.notices, vec![Notice::Error]);
    assert!(s.redraw);
}

#[test]
fn download_completion_routed_frees_a_worker_slot() {
    let mut s = playing_session(&[5], Loop::Playlist);
    let mut p = DownloadWorkerPool::new(1);
    assert_eq!(p.submit(1), Ok(()));
    assert_eq!(p.submit(2), Ok(()));
    assert_eq!(p.start_next_job(), Some(1));
    assert_eq!(p.start_next_job(), None);
    route_one(&mut s, &mut p, &InboundEvent::DownloadDone(1));
    assert_eq!(p.tracker.job_state(1), Some(JobState::Done));
    assert!(s.redraw);
    assert_eq!(p.start_next_job(), Some(2));
}

#[test]
fn download_failure_routed_is_terminal() {
    let mut s = playing_session(&[5], Loop::Playlist);
    let mut p = DownloadWorkerPool::new(1);
    assert_eq!(p.submit(1), Ok(()));
    assert_eq!(p.start_next_job(), Some(1));
    route_one(&mut s, &mut p, &InboundEvent::DownloadFailed(1));
    assert_eq!(p.tracker.job_state(1), Some(JobState::Failed));
}

#[test]
fn download_progress_routed_updates_percent() {
    let mut s = playing_session(&[5], Loop::Playlist);
    let mut p = DownloadWorkerPool::new(1);
    assert_eq!(p.submit(1), Ok(()));
    assert_eq!(p.start_next_job(), Some(1));
    route_one(&mut s, &mut p, &InboundEvent::DownloadProgress(1, 60));
    assert_eq!(p.tracker.jobs[0].percent, 60);
    assert!(s.redraw);
}

#[test]
fn unknown_download_progress_changes_nothing() {
    let mut s = playing_session(&[5], Loop::Playlist);
    let mut p = DownloadWorkerPool::new(1);
    route_one(&mut s, &mut p, &InboundEvent::DownloadProgress(42, 60));
    assert_eq!(p.tracker.jobs.len(), 0);
    assert!(!s.redraw);
}

#[test]
fn search_results_are_appended_in_order() {
    let mut s = playing_session(&[5], Loop::Playlist);
    let mut p = DownloadWorkerPool::new(1);
    route_one(&mut s, &mut p, &InboundEvent::SearchResult(7));
    route_one(&mut s, &mut p, &InboundEvent::SearchResult(3));
    assert_eq!(s.search_results, vec![7, 3]);
    assert!(s.redraw);
}

#[test]
fn empty_batch_changes_nothing() {
    let mut s = playing_session(&[5], Loop::Playlist);
    let mut p = DownloadWorkerPool::new(1);
    route_events(&mut s, &mut p, &Vec::new());
    assert_eq!(s.time_pos, 0);
    assert_eq!(s.backend.cmds.len(), 0);
    assert!(!s.redraw);
}
