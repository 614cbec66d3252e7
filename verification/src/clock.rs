//! The playback clock: it measures how long the current track has been in
//! the playing state, excluding time spent paused. The clock keeps an
//! accumulated duration and, while playing, the instant it last resumed;
//! pausing folds the running stretch into the accumulated duration and
//! resuming re-bases the running stretch at the current instant, so wall
//! time spent paused never counts as progress.

use vstd::prelude::*;

verus! {

/// Ghost model of the playback clock, over unbounded times in
/// milliseconds.
pub struct ClockModel {
    pub accumulated: int,
    pub playing: bool,
    pub resumed_at: int,
}

impl ClockModel {
    /// A clock freshly started at `now`: playing, with nothing accumulated.
    pub open spec fn started(now: int) -> ClockModel {
        ClockModel { accumulated: 0, playing: true, resumed_at: now }
    }

    /// Time spent playing up to `now`: the accumulated duration plus, while
    /// playing, the running stretch since the last resume.
    pub open spec fn elapsed(self, now: int) -> int {
        if self.playing {
            self.accumulated + (now - self.resumed_at)
        } else {
            self.accumulated
        }
    }

    /// The clock after pausing at `now`: the running stretch is folded into
    /// the accumulated duration.
    pub open spec fn paused(self, now: int) -> ClockModel {
        ClockModel { accumulated: self.elapsed(now), playing: false, resumed_at: self.resumed_at }
    }

    /// The clock after resuming at `now`: the running stretch restarts, so
    /// the pause interval is excluded.
    pub open spec fn resumed(self, now: int) -> ClockModel {
        ClockModel { accumulated: self.accumulated, playing: true, resumed_at: now }
    }
}

/// The playback clock as the session holds it, in milliseconds of a
/// monotonic time source.
pub struct PlaybackClock {
    pub accumulated_ms: u64,
    pub playing: bool,
    pub resumed_at_ms: u64,
}

impl PlaybackClock {
    /// The ghost model of this clock.
    pub open spec fn view(self) -> ClockModel {
        ClockModel {
            accumulated: self.accumulated_ms as int,
            playing: self.playing,
            resumed_at: self.resumed_at_ms as int,
        }
    }

    /// The clock's readings stay meaningful at instant `now`: while
    /// playing, the last resume lies in the past and the total elapsed time
    /// still fits the clock's word size.
    pub open spec fn valid_at(self, now: int) -> bool {
        self.playing ==> self.resumed_at_ms <= now && self.view().elapsed(now) <= u64::MAX
    }

    /// Starts the clock at `now`, playing, with nothing accumulated.
    pub fn start(now_ms: u64) -> (r: PlaybackClock)
        ensures
            r.view() == ClockModel::started(now_ms as int),
            r.valid_at(now_ms as int),
    {
        PlaybackClock { accumulated_ms: 0, playing: true, resumed_at_ms: now_ms }
    }

    /// Time spent playing up to `now`, excluding paused intervals.
    pub fn elapsed_ms(&self, now_ms: u64) -> (r: u64)
        requires
            self.valid_at(now_ms as int),
        ensures
            r == self.view().elapsed(now_ms as int),
    {
        if self.playing {
            self.accumulated_ms + (now_ms - self.resumed_at_ms)
        } else {
            self.accumulated_ms
        }
    }

    /// Pauses the clock at `now`: elapsed time freezes at its current
    /// reading.
    pub fn pause(&mut self, now_ms: u64)
        requires
            old(self).playing,
            old(self).valid_at(now_ms as int),
        ensures
            final(self).view() == old(self).view().paused(now_ms as int),
            forall|t: int| final(self).view().elapsed(t) == old(self).view().elapsed(now_ms as int),
            final(self).valid_at(now_ms as int),
    {
        self.accumulated_ms = self.accumulated_ms + (now_ms - self.resumed_at_ms);
        self.playing = false;
    }

    /// Resumes the clock at `now`: elapsed time continues from where the
    /// pause froze it, so the paused interval is excluded.
    pub fn resume(&mut self, now_ms: u64)
        requires
            !old(self).playing,
        ensures
            final(self).view() == old(self).view().resumed(now_ms as int),
            final(self).view().elapsed(now_ms as int) == old(self).view().elapsed(now_ms as int),
            final(self).valid_at(now_ms as int),
    {
        self.resumed_at_ms = now_ms;
        self.playing = true;
    }

    /// Resets the clock for a new track: playing, with nothing accumulated,
    /// re-based at `now`.
    pub fn reset(&mut self, now_ms: u64)
        ensures
            final(self).view() == ClockModel::started(now_ms as int),
            final(self).valid_at(now_ms as int),
    {
        self.accumulated_ms = 0;
        self.playing = true;
        self.resumed_at_ms = now_ms;
    }
}

/// Law: pause/resume clock correctness. A clock started at `t0`, paused at
/// `t1`, resumed at `t2` and read at `t3` reports the playing time
/// `(t1 - t0) + (t3 - t2)`: the paused interval `t2 - t1` is excluded.
pub proof fn lemma_pause_excludes_paused_interval(t0: int, t1: int, t2: int, t3: int)
    requires
        t0 <= t1 <= t2 <= t3,
    ensures
        ClockModel::started(t0).paused(t1).resumed(t2).elapsed(t3) == (t1 - t0) + (t3 - t2),
{
}

} // verus!
