//! Derived display values for one redraw tick: elapsed and remaining time,
//! the playback progress, how much of the progress bar is filled, and which
//! spinner frame to show. Progress is carried as an integer number of
//! thousandths of the whole track, so that the fraction needs no
//! floating-point value.

use vstd::prelude::*;

verus! {

/// Number of cells in the progress bar.
pub const BAR_LENGTH: u64 = 50;

/// Number of frames in the spinner animation.
pub const SPINNER_FRAME_COUNT: u64 = 10;

/// Full progress, in thousandths.
pub const PROGRESS_SCALE: u64 = 1000;

/// Playback progress in thousandths, clamped to full progress. A track
/// whose elapsed time has reached its total duration counts as fully
/// played, as does a track with no duration at all.
pub open spec fn spec_progress_permille(elapsed: int, total: int) -> int {
    if elapsed >= total {
        PROGRESS_SCALE as int
    } else {
        elapsed * PROGRESS_SCALE / total
    }
}

/// Number of filled progress-bar cells: the progress fraction scaled by
/// the bar length and rounded down, clamped to the full bar.
pub open spec fn spec_bar_fill(elapsed: int, total: int) -> int {
    if elapsed >= total {
        BAR_LENGTH as int
    } else {
        elapsed * BAR_LENGTH / total
    }
}

/// Time left until the end of the track, never negative.
pub open spec fn spec_remaining(elapsed: int, total: int) -> int {
    if elapsed >= total {
        0
    } else {
        total - elapsed
    }
}

/// The frame a redraw tick shows for a given elapsed time, total duration
/// and spinner phase.
pub open spec fn spec_frame(elapsed: int, total: int, phase: int) -> DisplayFrame {
    DisplayFrame {
        elapsed_ms: elapsed as u64,
        remaining_ms: spec_remaining(elapsed, total) as u64,
        progress_permille: spec_progress_permille(elapsed, total) as u64,
        bar_fill_count: spec_bar_fill(elapsed, total) as u64,
        spinner_index: (phase % (SPINNER_FRAME_COUNT as int)) as u64,
    }
}

/// The values one redraw tick pushes to the terminal renderer.
#[derive(Clone, Copy, Debug, PartialEq, Eq, Structural)]
pub struct DisplayFrame {
    /// Time spent playing, in milliseconds.
    pub elapsed_ms: u64,
    /// Time left until the end of the track, in milliseconds.
    pub remaining_ms: u64,
    /// Playback progress in thousandths of the whole track.
    pub progress_permille: u64,
    /// Number of filled cells in the progress bar.
    pub bar_fill_count: u64,
    /// Index of the spinner frame to show.
    pub spinner_index: u64,
}

/// Scales a not-yet-complete elapsed time into `scale` parts of the total
/// duration, rounding down.
fn scaled_progress(elapsed_ms: u64, total_ms: u64, scale: u64) -> (r: u64)
    requires
        elapsed_ms < total_ms,
    ensures
        r == elapsed_ms as int * scale as int / total_ms as int,
        r <= scale,
{
    proof {
        assert(elapsed_ms as int * scale as int <= u128::MAX) by (nonlinear_arith)
            requires
                elapsed_ms <= u64::MAX,
                scale <= u64::MAX,
        ;
        assert(elapsed_ms as int * scale as int / total_ms as int <= scale) by (nonlinear_arith)
            requires
                0 <= elapsed_ms < total_ms,
                0 <= scale,
        ;
    }
    let wide: u128 = (elapsed_ms as u128) * (scale as u128) / (total_ms as u128);
    wide as u64
}

/// Computes the display values for one redraw tick from the elapsed
/// playing time, the track's total duration and the spinner phase.
pub fn compute_display(elapsed_ms: u64, total_ms: u64, spinner_phase: u64) -> (f: DisplayFrame)
    ensures
        f.elapsed_ms == elapsed_ms,
        f.remaining_ms == spec_remaining(elapsed_ms as int, total_ms as int),
        f.progress_permille == spec_progress_permille(elapsed_ms as int, total_ms as int),
        f.bar_fill_count == spec_bar_fill(elapsed_ms as int, total_ms as int),
        f.spinner_index == spinner_phase as int % SPINNER_FRAME_COUNT as int,
        f.progress_permille <= PROGRESS_SCALE,
        f.bar_fill_count <= BAR_LENGTH,
        f.spinner_index < SPINNER_FRAME_COUNT,
        elapsed_ms >= total_ms ==> f.remaining_ms == 0 && f.progress_permille == PROGRESS_SCALE
            && f.bar_fill_count == BAR_LENGTH,
        f == spec_frame(elapsed_ms as int, total_ms as int, spinner_phase as int),
{
    if elapsed_ms >= total_ms {
        DisplayFrame {
            elapsed_ms,
            remaining_ms: 0,
            progress_permille: PROGRESS_SCALE,
            bar_fill_count: BAR_LENGTH,
            spinner_index: spinner_phase % SPINNER_FRAME_COUNT,
        }
    } else {
        DisplayFrame {
            elapsed_ms,
            remaining_ms: total_ms - elapsed_ms,
            progress_permille: scaled_progress(elapsed_ms, total_ms, PROGRESS_SCALE),
            bar_fill_count: scaled_progress(elapsed_ms, total_ms, BAR_LENGTH),
            spinner_index: spinner_phase % SPINNER_FRAME_COUNT,
        }
    }
}

} // verus!
