use termusic::playlist::{Loop, Playlist};
use termusic::track::{MediaType, Track};

fn track(id: u64) -> Track {
    Track { id, duration_secs: 300, media_type: Some(MediaType::Music) }
}

fn playlist_with(n: u64, loop_mode: Loop, cursor: Option<usize>) -> Playlist {
    let mut p = Playlist::new(loop_mode);
    let mut i: u64 = 0;
    while i < n {
        p.add_track(track(i));
        i += 1;
    }
    p.current_track_index = cursor;
    p
}

#[test]
fn new_playlist_is_empty_and_stopped() {
    let p = Playlist::new(Loop::Playlist);
    assert!(p.is_empty());
    assert!(p.is_stopped());
    assert_eq!(p.current_track(), None);
}

#[test]
fn start_places_cursor_on_first_track() {
    let mut p = playlist_with(3, Loop::Playlist, None);
    p.start();
    assert_eq!(p.current_track_index, Some(0));
    assert_eq!(p.current_track(), Some(track(0)));
}

#[test]
fn start_on_empty_playlist_stays_stopped() {
    let mut p = Playlist::new(Loop::Queue);
    p.start();
    assert!(p.is_stopped());
}

#[test]
fn previous_moves_cursor_back() {
    let mut p = playlist_with(3, Loop::Playlist, Some(2));
    p.handle_previous();
    assert_eq!(p.current_track_index, Some(1));
}

#[test]
fn previous_wraps_from_first_to_last() {
    let mut p = playlist_with(3, Loop::Playlist, Some(0));
    p.handle_previous();
    assert_eq!(p.current_track_index, Some(2));
}

#[test]
fn advance_single_replays_same_index() {
    let mut p = playlist_with(3, Loop::Single, Some(1));
    p.handle_advance();
    assert_eq!(p.current_track_index, Some(1));
}

#[test]
fn advance_queue_wraps_to_first_past_end() {
    let mut p = playlist_with(3, Loop::Queue, Some(2));
    p.handle_advance();
    assert_eq!(p.current_track_index, Some(0));
}

#[test]
fn advance_playlist_stops_past_last_track() {
    let mut p = playlist_with(3, Loop::Playlist, Some(2));
    p.handle_advance();
    assert_eq!(p.current_track_index, None);
    assert!(p.is_stopped());
}

#[test]
fn previous_then_advance_round_trip_under_queue() {
    // Round trip in the middle of the queue.
    let mut p = playlist_with(4, Loop::Queue, Some(2));
    p.handle_previous();
    p.handle_advance();
    assert_eq!(p.current_track_index, Some(2));
    // Round trip across the wrap at the first track.
    let mut q = playlist_with(4, Loop::Queue, Some(0));
    q.handle_previous();
    assert_eq!(q.current_track_index, Some(3));
    q.handle_advance();
    assert_eq!(q.current_track_index, Some(0));
}

#[test]
fn single_element_queue_navigation_keeps_cursor() {
    let mut p = playlist_with(1, Loop::Queue, Some(0));
    p.handle_previous();
    assert_eq!(p.current_track_index, Some(0));
    p.handle_advance();
    assert_eq!(p.current_track_index, Some(0));
}

#[test]
fn stop_drops_cursor_but_keeps_queue() {
    let mut p = playlist_with(2, Loop::Playlist, Some(1));
    p.stop();
    assert!(p.is_stopped());
    assert!(!p.is_empty());
}
