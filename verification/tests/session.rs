use tuneplay::config::Config;
use tuneplay::media::{title_or_default, track_duration_secs};
use tuneplay::playlist::Playlist;
use tuneplay::session::{Session, SessionAction, SessionPhase};

fn single_track_session(volume: u32) -> Session {
    let mut playlist = Playlist::new();
    playlist.add_track("song.mp3".to_string());
    Session::start(playlist, volume, 300_000, 0)
}

#[test]
fn finished_device_with_no_next_track_stops_the_session() {
    let mut s = single_track_session(50);
    assert!(!s.is_stopped());
    let stop = s.on_device_empty(true);
    assert!(stop);
    assert!(s.is_stopped());
    assert_eq!(s.phase, SessionPhase::Stopped);
}

#[test]
fn busy_device_keeps_the_session_running() {
    let mut s = single_track_session(50);
    assert!(!s.on_device_empty(false));
    assert!(!s.is_stopped());
}

#[test]
fn empty_device_mid_playlist_keeps_playing() {
    let mut playlist = Playlist::new();
    playlist.add_track("a.mp3".to_string());
    playlist.add_track("b.mp3".to_string());
    let mut s = Session::start(playlist, 50, 10_000, 0);
    assert!(!s.on_device_empty(true));
    assert!(!s.is_stopped());
}

#[test]
fn quit_key_stops_the_session() {
    let mut s = single_track_session(50);
    let a = s.on_key('q', 1_000);
    assert_eq!(a, SessionAction::Quit);
    assert!(s.is_stopped());
}

#[test]
fn toggle_pauses_and_resumes_the_sink() {
    let mut s = single_track_session(50);
    assert_eq!(s.on_key('p', 5_000), SessionAction::PauseSink);
    assert_eq!(s.phase, SessionPhase::Paused);
    assert_eq!(s.on_key('p', 10_000), SessionAction::ResumeSink);
    assert_eq!(s.phase, SessionPhase::Playing);
}

#[test]
fn pause_stops_the_progress_clock() {
    let mut s = single_track_session(50);
    s.on_key('p', 5_000);
    s.on_key('p', 10_000);
    let frame = s.on_tick(15_000).expect("session is playing");
    assert_eq!(frame.elapsed_ms, 10_000);
}

#[test]
fn volume_keys_move_the_device_volume() {
    let mut s = single_track_session(50);
    assert_eq!(s.on_key('+', 1_000), SessionAction::SetVolume(60));
    assert_eq!(s.on_key('-', 2_000), SessionAction::SetVolume(50));
    assert_eq!(s.volume, 50);
}

#[test]
fn key_events_are_debounced_in_the_session() {
    let mut s = single_track_session(50);
    assert_eq!(s.on_key('+', 1_000), SessionAction::SetVolume(60));
    assert_eq!(s.on_key('+', 1_100), SessionAction::Stay);
    assert_eq!(s.volume, 60);
}

#[test]
fn tick_yields_frames_only_while_playing() {
    let mut s = single_track_session(50);
    let f = s.on_tick(30_000).expect("session is playing");
    assert_eq!(f.elapsed_ms, 30_000);
    assert_eq!(f.progress_permille, 100);
    assert_eq!(f.spinner_index, 0);
    let g = s.on_tick(31_000).expect("session is playing");
    assert_eq!(g.spinner_index, 1);
    s.on_key('p', 40_000);
    assert_eq!(s.on_tick(41_000), None);
}

#[test]
fn navigation_keys_request_a_load_without_moving() {
    let mut playlist = Playlist::new();
    playlist.add_track("a.mp3".to_string());
    playlist.add_track("b.mp3".to_string());
    playlist.add_track("c.mp3".to_string());
    let mut s = Session::start(playlist, 50, 10_000, 0);
    let a = s.on_key('n', 1_000);
    assert_eq!(
        a,
        SessionAction::LoadTrack { path: "b.mp3".to_string(), forward: true }
    );
    assert_eq!(s.playlist.current_track(), Some(&"a.mp3".to_string()));
    let b = s.on_key('b', 2_000);
    assert_eq!(
        b,
        SessionAction::LoadTrack { path: "c.mp3".to_string(), forward: false }
    );
    assert_eq!(s.playlist.current_track(), Some(&"a.mp3".to_string()));
}

#[test]
fn committing_a_load_moves_cursor_and_restarts_clock() {
    let mut playlist = Playlist::new();
    playlist.add_track("a.mp3".to_string());
    playlist.add_track("b.mp3".to_string());
    let mut s = Session::start(playlist, 50, 10_000, 0);
    s.on_key('n', 1_000);
    s.track_loaded(true, 20_000, 1_500);
    assert_eq!(s.playlist.current_track(), Some(&"b.mp3".to_string()));
    assert_eq!(s.track_duration_ms, 20_000);
    assert_eq!(s.phase, SessionPhase::Playing);
    let f = s.on_tick(2_500).expect("session is playing");
    assert_eq!(f.elapsed_ms, 1_000);
}

#[test]
fn end_to_end_single_track_run() {
    let config = Config::new(50, "music".to_string()).expect("volume on scale");
    let mut playlist = Playlist::new();
    playlist.add_track("song.mp3".to_string());
    let mut s = Session::start(playlist, config.default_volume, 300_000, 0);
    let mut ticks = 0;
    let mut now = 0;
    while !s.is_stopped() {
        now += 500;
        if s.on_tick(now).is_some() {
            ticks += 1;
        }
        let device_empty = now >= 2_000;
        s.on_device_empty(device_empty);
    }
    assert!(ticks >= 4);
    assert_eq!(s.phase, SessionPhase::Stopped);
}

#[test]
fn config_rejects_volume_beyond_full_scale() {
    assert!(Config::new(101, "music".to_string()).is_none());
    let c = Config::new(100, "music".to_string()).expect("volume on scale");
    assert_eq!(c.default_volume, 100);
    assert_eq!(c.playlist_directory, "music");
}

#[test]
fn track_duration_follows_the_decoder_report() {
    assert_eq!(track_duration_secs(Some(441_000), Some(44_100)), 10);
    assert_eq!(track_duration_secs(None, Some(44_100)), 300);
    assert_eq!(track_duration_secs(Some(882_000), None), 20);
    assert_eq!(track_duration_secs(Some(441_000), Some(0)), 10);
}

#[test]
fn missing_title_falls_back() {
    assert_eq!(title_or_default(Some("Song".to_string())), "Song");
    assert_eq!(title_or_default(None), "Unknown Title");
}
