use tuneplay::clock::PlaybackClock;
use tuneplay::display::{compute_display, BAR_LENGTH, PROGRESS_SCALE};

#[test]
fn progress_at_start_is_zero() {
    let f = compute_display(0, 300_000, 0);
    assert_eq!(f.progress_permille, 0);
    assert_eq!(f.bar_fill_count, 0);
    assert_eq!(f.elapsed_ms, 0);
    assert_eq!(f.remaining_ms, 300_000);
}

#[test]
fn progress_at_midpoint() {
    let f = compute_display(150_000, 300_000, 0);
    assert_eq!(f.progress_permille, PROGRESS_SCALE / 2);
    assert_eq!(f.bar_fill_count, BAR_LENGTH / 2);
    assert_eq!(f.remaining_ms, 150_000);
}

#[test]
fn progress_clamps_past_the_end() {
    let f = compute_display(400_000, 300_000, 0);
    assert_eq!(f.remaining_ms, 0);
    assert_eq!(f.progress_permille, PROGRESS_SCALE);
    assert_eq!(f.bar_fill_count, BAR_LENGTH);
}

#[test]
fn zero_duration_counts_as_fully_played() {
    let f = compute_display(0, 0, 0);
    assert_eq!(f.remaining_ms, 0);
    assert_eq!(f.progress_permille, PROGRESS_SCALE);
    assert_eq!(f.bar_fill_count, BAR_LENGTH);
}

#[test]
fn spinner_index_cycles() {
    assert_eq!(compute_display(0, 1000, 0).spinner_index, 0);
    assert_eq!(compute_display(0, 1000, 9).spinner_index, 9);
    assert_eq!(compute_display(0, 1000, 10).spinner_index, 0);
    assert_eq!(compute_display(0, 1000, 23).spinner_index, 3);
}

#[test]
fn clock_counts_while_playing() {
    let c = PlaybackClock::start(1_000);
    assert_eq!(c.elapsed_ms(1_000), 0);
    assert_eq!(c.elapsed_ms(6_000), 5_000);
}

#[test]
fn paused_interval_is_excluded() {
    let mut c = PlaybackClock::start(0);
    c.pause(5_000);
    assert_eq!(c.elapsed_ms(10_000), 5_000);
    c.resume(10_000);
    assert_eq!(c.elapsed_ms(15_000), 10_000);
}

#[test]
fn elapsed_freezes_while_paused() {
    let mut c = PlaybackClock::start(0);
    c.pause(3_000);
    assert_eq!(c.elapsed_ms(3_000), 3_000);
    assert_eq!(c.elapsed_ms(100_000), 3_000);
}

#[test]
fn reset_restarts_the_clock() {
    let mut c = PlaybackClock::start(0);
    c.pause(4_000);
    c.reset(9_000);
    assert_eq!(c.elapsed_ms(9_500), 500);
}
