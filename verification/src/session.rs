//! The playback session controller: the state machine that owns the
//! playlist cursor, the play/pause phase, the volume, the pause-aware
//! playback clock and the spinner phase. Each entry point takes one event
//! (a redraw tick, a raw key press, a device emptiness report, a finished
//! track load) and returns what the caller must do to the output device;
//! the caller performs the side effect and feeds the next event back in.

use crate::clock::{ClockModel, PlaybackClock};
use crate::controls::{adjust_volume, spec_adjust_volume, VOLUME_MAX};
use crate::debounce::{debounce, spec_accepts, spec_key_command, Command};
use crate::display::{compute_display, spec_frame, DisplayFrame, SPINNER_FRAME_COUNT};
use crate::playlist::{next_index, prev_index, Playlist};
use vstd::prelude::*;

verus! {

/// Where the session stands: playing, paused, or stopped for good.
#[derive(Clone, Copy, Debug, PartialEq, Eq, Structural)]
pub enum SessionPhase {
    Playing,
    Paused,
    Stopped,
}

/// The side effect the caller must perform on the output device after an
/// event, before handing the session its next event.
#[derive(Clone, Debug, PartialEq, Eq)]
pub enum SessionAction {
    /// Nothing to do.
    Stay,
    /// Leave the main loop and restore the terminal.
    Quit,
    /// Pause the output device.
    PauseSink,
    /// Resume the output device.
    ResumeSink,
    /// Set the device volume, in hundredths of full scale.
    SetVolume(u32),
    /// Decode `path` and, on success, report the load back through
    /// `track_loaded` with the same direction; on failure, report nothing:
    /// the session has not moved.
    LoadTrack { path: String, forward: bool },
}

/// The cursor rests on the playlist's last track (or the playlist is
/// empty), so no further track remains before the wrap-around.
pub open spec fn spec_at_end(p: Playlist) -> bool {
    p.tracks@.len() == 0 || p.current_index == p.tracks@.len() - 1
}

/// The run-time state of one playback session.
pub struct Session {
    pub playlist: Playlist,
    /// Volume in hundredths of full scale.
    pub volume: u32,
    /// Playback clock for the current track.
    pub clock: PlaybackClock,
    /// Redraw counter, kept below the spinner frame count.
    pub spinner_phase: u64,
    /// Time of the last accepted input event, in milliseconds.
    pub last_input_ms: Option<u64>,
    /// Total duration of the current track, in milliseconds.
    pub track_duration_ms: u64,
    pub phase: SessionPhase,
}

impl Session {
    /// The session's internal invariant: a valid playlist cursor, a volume
    /// on the scale, a spinner phase inside the frame count, and a clock
    /// that runs exactly while the session is playing.
    pub open spec fn well_formed(&self) -> bool {
        &&& self.playlist.well_formed()
        &&& self.volume <= VOLUME_MAX
        &&& self.spinner_phase < SPINNER_FRAME_COUNT
        &&& (self.phase is Playing ==> self.clock.playing)
        &&& (self.phase is Paused ==> !self.clock.playing)
    }

    /// Fields that no key command ever touches.
    pub open spec fn key_frame_unchanged(self, other: Session) -> bool {
        &&& self.playlist == other.playlist
        &&& self.spinner_phase == other.spinner_phase
        &&& self.track_duration_ms == other.track_duration_ms
    }

    /// Starts a session on a loaded track: playing, clock started at
    /// `now_ms`, spinner at its first frame, no input accepted yet.
    pub fn start(playlist: Playlist, volume: u32, track_duration_ms: u64, now_ms: u64) -> (s:
        Session)
        requires
            playlist.well_formed(),
            volume <= VOLUME_MAX,
        ensures
            s.well_formed(),
            s.playlist == playlist,
            s.volume == volume,
            s.track_duration_ms == track_duration_ms,
            s.phase is Playing,
            s.clock@ == ClockModel::started(now_ms as int),
            s.clock.valid_at(now_ms as int),
            s.spinner_phase == 0,
            s.last_input_ms is None,
    {
        Session {
            playlist,
            volume,
            clock: PlaybackClock::start(now_ms),
            spinner_phase: 0,
            last_input_ms: None,
            track_duration_ms,
            phase: SessionPhase::Playing,
        }
    }

    /// One redraw tick. While playing, it yields the display frame for the
    /// current clock reading and moves the spinner one frame on; while
    /// paused or stopped, it yields nothing and changes nothing, so the
    /// last rendered frame stays on screen.
    pub fn on_tick(&mut self, now_ms: u64) -> (r: Option<DisplayFrame>)
        requires
            old(self).well_formed(),
            old(self).clock.valid_at(now_ms as int),
        ensures
            final(self).well_formed(),
            final(self).clock.valid_at(now_ms as int),
            old(self).phase is Playing ==> {
                &&& r == Some(
                    spec_frame(
                        old(self).clock@.elapsed(now_ms as int),
                        old(self).track_duration_ms as int,
                        old(self).spinner_phase as int,
                    ),
                )
                &&& final(self).spinner_phase == (old(self).spinner_phase + 1) % (
                SPINNER_FRAME_COUNT as int)
                &&& final(self).playlist == old(self).playlist
                &&& final(self).volume == old(self).volume
                &&& final(self).clock == old(self).clock
                &&& final(self).last_input_ms == old(self).last_input_ms
                &&& final(self).track_duration_ms == old(self).track_duration_ms
                &&& final(self).phase == old(self).phase
            },
            !(old(self).phase is Playing) ==> r is None && *final(self) == *old(self),
    {
        if self.phase == SessionPhase::Playing {
            let elapsed = self.clock.elapsed_ms(now_ms);
            let frame = compute_display(elapsed, self.track_duration_ms, self.spinner_phase);
            self.spinner_phase = if self.spinner_phase + 1 == SPINNER_FRAME_COUNT {
                0
            } else {
                self.spinner_phase + 1
            };
            Some(frame)
        } else {
            None
        }
    }

    /// One raw key event at `now_ms`. The event first passes the
    /// debouncer: inside the debounce window it is dropped and nothing
    /// changes. An accepted event updates the input time and its command
    /// is applied: quit stops the session; play/pause toggles the phase
    /// and the clock; the volume commands move the volume one clamped
    /// step; the navigation commands pick the neighbouring track for the
    /// caller to load, moving nothing yet; an unmapped key does nothing.
    pub fn on_key(&mut self, key: char, now_ms: u64) -> (a: SessionAction)
        requires
            old(self).well_formed(),
            old(self).clock.valid_at(now_ms as int),
            old(self).last_input_ms is Some ==> old(self).last_input_ms->0 <= now_ms,
            !(old(self).phase is Stopped),
        ensures
            final(self).well_formed(),
            final(self).clock.valid_at(now_ms as int),
            final(self).volume <= VOLUME_MAX,
            !spec_accepts(now_ms as int, old(self).last_input_ms) ==> a == SessionAction::Stay
                && *final(self) == *old(self),
            spec_accepts(now_ms as int, old(self).last_input_ms) ==> {
                let cmd = spec_key_command(key);
                &&& final(self).last_input_ms == Some(now_ms)
                &&& (cmd == Command::Noop ==> a == SessionAction::Stay && old(
                    self,
                ).key_frame_unchanged(*final(self)) && final(self).volume == old(self).volume
                    && final(self).clock == old(self).clock && final(self).phase == old(
                    self,
                ).phase)
                &&& (cmd == Command::Quit ==> a == SessionAction::Quit && old(
                    self,
                ).key_frame_unchanged(*final(self)) && final(self).volume == old(self).volume
                    && final(self).clock == old(self).clock && final(self).phase
                    is Stopped)
                &&& (cmd == Command::TogglePlayPause && old(self).phase is Playing ==> a
                    == SessionAction::PauseSink && old(self).key_frame_unchanged(*final(self))
                    && final(self).volume == old(self).volume && final(self).clock@ == old(
                    self,
                ).clock@.paused(now_ms as int) && final(self).phase is Paused)
                &&& (cmd == Command::TogglePlayPause && old(self).phase is Paused ==> a
                    == SessionAction::ResumeSink && old(self).key_frame_unchanged(*final(self))
                    && final(self).volume == old(self).volume && final(self).clock@ == old(
                    self,
                ).clock@.resumed(now_ms as int) && final(self).phase is Playing)
                &&& (cmd == Command::VolumeUp || cmd == Command::VolumeDown ==> a
                    == SessionAction::SetVolume(final(self).volume) && old(
                    self,
                ).key_frame_unchanged(*final(self)) && final(self).volume == spec_adjust_volume(
                    old(self).volume as int,
                    cmd == Command::VolumeUp,
                ) && final(self).clock == old(self).clock && final(self).phase == old(self).phase)
                &&& (cmd == Command::NextTrack || cmd == Command::PreviousTrack ==> {
                    let len = old(self).playlist.tracks@.len() as int;
                    let target = if cmd == Command::NextTrack {
                        next_index(old(self).playlist.current_index as int, len)
                    } else {
                        prev_index(old(self).playlist.current_index as int, len)
                    };
                    &&& old(self).key_frame_unchanged(*final(self))
                    &&& final(self).volume == old(self).volume
                    &&& final(self).clock == old(self).clock
                    &&& final(self).phase == old(self).phase
                    &&& (len == 0 ==> a == SessionAction::Stay)
                    &&& (len > 0 ==> a == (SessionAction::LoadTrack {
                        path: old(self).playlist.tracks@[target],
                        forward: cmd == Command::NextTrack,
                    }))
                })
            },
    {
        let (cmd, new_last) = debounce(key, now_ms, self.last_input_ms);
        self.last_input_ms = new_last;
        match cmd {
            Command::Quit => {
                self.phase = SessionPhase::Stopped;
                SessionAction::Quit
            },
            Command::TogglePlayPause => {
                if self.phase == SessionPhase::Playing {
                    self.clock.pause(now_ms);
                    self.phase = SessionPhase::Paused;
                    SessionAction::PauseSink
                } else {
                    self.clock.resume(now_ms);
                    self.phase = SessionPhase::Playing;
                    SessionAction::ResumeSink
                }
            },
            Command::VolumeUp => {
                self.volume = adjust_volume(self.volume, true);
                SessionAction::SetVolume(self.volume)
            },
            Command::VolumeDown => {
                self.volume = adjust_volume(self.volume, false);
                SessionAction::SetVolume(self.volume)
            },
            Command::NextTrack => {
                match self.playlist.peek_next() {
                    Option::Some(path) => SessionAction::LoadTrack {
                        path: path.clone(),
                        forward: true,
                    },
                    Option::None => SessionAction::Stay,
                }
            },
            Command::PreviousTrack => {
                match self.playlist.peek_previous() {
                    Option::Some(path) => SessionAction::LoadTrack {
                        path: path.clone(),
                        forward: false,
                    },
                    Option::None => SessionAction::Stay,
                }
            },
            Command::Noop => SessionAction::Stay,
        }
    }

    /// Commits a finished track change: the cursor moves one step in the
    /// requested direction, the clock restarts at `now_ms`, and the
    /// session plays the new track. A failed load is simply never
    /// committed, which leaves the session exactly as it was.
    pub fn track_loaded(&mut self, forward: bool, track_duration_ms: u64, now_ms: u64)
        requires
            old(self).well_formed(),
            old(self).playlist.tracks@.len() > 0,
        ensures
            final(self).well_formed(),
            final(self).clock.valid_at(now_ms as int),
            final(self).playlist.tracks@ == old(self).playlist.tracks@,
            final(self).playlist.current_index as int == if forward {
                next_index(
                    old(self).playlist.current_index as int,
                    old(self).playlist.tracks@.len() as int,
                )
            } else {
                prev_index(
                    old(self).playlist.current_index as int,
                    old(self).playlist.tracks@.len() as int,
                )
            },
            final(self).track_duration_ms == track_duration_ms,
            final(self).clock@ == ClockModel::started(now_ms as int),
            final(self).phase is Playing,
            final(self).volume == old(self).volume,
            final(self).spinner_phase == old(self).spinner_phase,
            final(self).last_input_ms == old(self).last_input_ms,
    {
        if forward {
            let _ = self.playlist.next();
        } else {
            let _ = self.playlist.previous();
        }
        self.track_duration_ms = track_duration_ms;
        self.clock.reset(now_ms);
        self.phase = SessionPhase::Playing;
    }

    /// The per-iteration termination check: when the output device reports
    /// its buffer empty and no further track remains, the session stops;
    /// otherwise nothing changes.
    pub fn on_device_empty(&mut self, sink_empty: bool) -> (stop: bool)
        requires
            old(self).well_formed(),
        ensures
            final(self).well_formed(),
            stop == (sink_empty && spec_at_end(old(self).playlist)),
            stop ==> final(self).phase is Stopped && old(self).key_frame_unchanged(*final(self))
                && final(self).volume == old(self).volume && final(self).clock == old(self).clock
                && final(self).last_input_ms == old(self).last_input_ms,
            !stop ==> *final(self) == *old(self),
    {
        let len = self.playlist.tracks.len();
        let at_end = len == 0 || self.playlist.current_index == len - 1;
        if sink_empty && at_end {
            self.phase = SessionPhase::Stopped;
            true
        } else {
            false
        }
    }

    /// Whether the session has reached its terminal state and the main
    /// loop should exit.
    pub fn is_stopped(&self) -> (r: bool)
        ensures
            r == (self.phase is Stopped),
    {
        self.phase == SessionPhase::Stopped
    }
}

} // verus!
