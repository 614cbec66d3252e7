//! An ordered, wrap-around navigable sequence of track references with a
//! cursor marking the current track. Navigation is total: an empty playlist
//! reports the absence of a track instead of failing.

use vstd::prelude::*;

verus! {

/// Index of the track after `i` in a playlist of length `len`, wrapping to
/// the front past the end.
pub open spec fn next_index(i: int, len: int) -> int {
    (i + 1) % len
}

/// Index of the track before `i` in a playlist of length `len`, wrapping to
/// the back before the front.
pub open spec fn prev_index(i: int, len: int) -> int {
    if i == 0 {
        len - 1
    } else {
        i - 1
    }
}

/// Cursor position after advancing `k` times from `i` in a playlist of
/// length `len`.
pub open spec fn advance_iter(i: int, len: int, k: nat) -> int
    decreases k,
{
    if k == 0 {
        i
    } else {
        next_index(advance_iter(i, len, (k - 1) as nat), len)
    }
}

/// A playlist of track references (file paths) with a current-position
/// cursor.
pub struct Playlist {
    pub tracks: Vec<String>,
    pub current_index: usize,
}

impl Playlist {
    /// The cursor is a valid index whenever the playlist is non-empty, and
    /// rests at zero while it is empty.
    pub open spec fn well_formed(&self) -> bool {
        if self.tracks@.len() == 0 {
            self.current_index == 0
        } else {
            self.current_index < self.tracks@.len()
        }
    }

    /// Creates a new, empty playlist with the cursor at the start.
    pub fn new() -> (r: Playlist)
        ensures
            r.well_formed(),
            r.tracks@.len() == 0,
            r.current_index == 0,
    {
        Playlist { tracks: Vec::new(), current_index: 0 }
    }

    /// Appends a track at the end of the playlist; the cursor does not move.
    pub fn add_track(&mut self, path: String)
        requires
            old(self).well_formed(),
        ensures
            final(self).well_formed(),
            final(self).tracks@ == old(self).tracks@.push(path),
            final(self).current_index == old(self).current_index,
    {
        self.tracks.push(path);
    }

    /// Moves the cursor to the next track, wrapping to the front past the
    /// end, and returns the new current track; an empty playlist is left
    /// unchanged and yields no track.
    pub fn next(&mut self) -> (r: Option<String>)
        requires
            old(self).well_formed(),
        ensures
            final(self).well_formed(),
            final(self).tracks@ == old(self).tracks@,
            old(self).tracks@.len() == 0 ==> r is None && *final(self) == *old(self),
            old(self).tracks@.len() > 0 ==> {
                &&& final(self).current_index as int == next_index(
                    old(self).current_index as int,
                    old(self).tracks@.len() as int,
                )
                &&& r == Some(old(self).tracks@[final(self).current_index as int])
            },
    {
        if self.tracks.len() > 0 {
            let len = self.tracks.len();
            let next = if self.current_index + 1 == len {
                0
            } else {
                self.current_index + 1
            };
            proof {
                assert(next as int == next_index(
                    self.current_index as int,
                    self.tracks@.len() as int,
                )) by (nonlinear_arith)
                    requires
                        0 <= self.current_index < self.tracks@.len(),
                        len == self.tracks@.len(),
                        next == if self.current_index + 1 == len {
                            0int
                        } else {
                            self.current_index + 1
                        },
                ;
            }
            self.current_index = next;
            Some(self.tracks[self.current_index].clone())
        } else {
            None
        }
    }

    /// Moves the cursor to the previous track, wrapping to the back before
    /// the front, and returns the new current track; an empty playlist is
    /// left unchanged and yields no track.
    pub fn previous(&mut self) -> (r: Option<String>)
        requires
            old(self).well_formed(),
        ensures
            final(self).well_formed(),
            final(self).tracks@ == old(self).tracks@,
            old(self).tracks@.len() == 0 ==> r is None && *final(self) == *old(self),
            old(self).tracks@.len() > 0 ==> {
                &&& final(self).current_index as int == prev_index(
                    old(self).current_index as int,
                    old(self).tracks@.len() as int,
                )
                &&& r == Some(old(self).tracks@[final(self).current_index as int])
            },
    {
        if self.tracks.len() > 0 {
            if self.current_index == 0 {
                self.current_index = self.tracks.len() - 1;
            } else {
                self.current_index = self.current_index - 1;
            }
            Some(self.tracks[self.current_index].clone())
        } else {
            None
        }
    }

    /// Returns the current track without moving the cursor; an empty
    /// playlist yields no track.
    pub fn current_track(&self) -> (r: Option<&String>)
        requires
            self.well_formed(),
        ensures
            self.tracks@.len() == 0 ==> r is None,
            self.tracks@.len() > 0 ==> r == Some(&self.tracks@[self.current_index as int]),
    {
        if self.tracks.len() > 0 {
            Some(&self.tracks[self.current_index])
        } else {
            None
        }
    }

    /// Returns the track `next` would move to, without moving the cursor.
    pub fn peek_next(&self) -> (r: Option<&String>)
        requires
            self.well_formed(),
        ensures
            self.tracks@.len() == 0 ==> r is None,
            self.tracks@.len() > 0 ==> r == Some(
                &self.tracks@[next_index(self.current_index as int, self.tracks@.len() as int)],
            ),
    {
        if self.tracks.len() > 0 {
            let len = self.tracks.len();
            let next = if self.current_index + 1 == len {
                0
            } else {
                self.current_index + 1
            };
            proof {
                assert(next as int == next_index(
                    self.current_index as int,
                    self.tracks@.len() as int,
                )) by (nonlinear_arith)
                    requires
                        0 <= self.current_index < self.tracks@.len(),
                        len == self.tracks@.len(),
                        next == if self.current_index + 1 == len {
                            0int
                        } else {
                            self.current_index + 1
                        },
                ;
            }
            Some(&self.tracks[next])
        } else {
            None
        }
    }

    /// Returns the track `previous` would move to, without moving the
    /// cursor.
    pub fn peek_previous(&self) -> (r: Option<&String>)
        requires
            self.well_formed(),
        ensures
            self.tracks@.len() == 0 ==> r is None,
            self.tracks@.len() > 0 ==> r == Some(
                &self.tracks@[prev_index(self.current_index as int, self.tracks@.len() as int)],
            ),
    {
        if self.tracks.len() > 0 {
            let prev = if self.current_index == 0 {
                self.tracks.len() - 1
            } else {
                self.current_index - 1
            };
            Some(&self.tracks[prev])
        } else {
            None
        }
    }
}

/// Law: moving forward and then backward is the identity on the cursor.
/// `prev_index` undoes `next_index` at every valid position.
pub proof fn lemma_prev_next_inverse(i: int, len: int)
    requires
        0 <= i < len,
    ensures
        prev_index(next_index(i, len), len) == i,
{
    assert(next_index(i, len) == if i + 1 == len {
        0int
    } else {
        i + 1
    }) by (nonlinear_arith)
        requires
            0 <= i < len,
    ;
}

/// Law: moving backward and then forward is the identity on the cursor.
/// `next_index` undoes `prev_index` at every valid position.
pub proof fn lemma_next_prev_inverse(i: int, len: int)
    requires
        0 <= i < len,
    ensures
        next_index(prev_index(i, len), len) == i,
{
    assert((if i == 0 { len - 1 } else { i - 1 } + 1) % len == i) by (nonlinear_arith)
        requires
            0 <= i < len,
    ;
}

/// Advancing `k` times moves the cursor `k` steps around the cycle.
pub proof fn lemma_advance_iter_mod(i: int, len: int, k: nat)
    requires
        0 <= i < len,
    ensures
        advance_iter(i, len, k) == (i + k) % len,
    decreases k,
{
    if k == 0 {
        assert(i % len == i) by (nonlinear_arith)
            requires
                0 <= i < len,
        ;
    } else {
        lemma_advance_iter_mod(i, len, (k - 1) as nat);
        assert(((i + (k - 1) % len + 1) % len) == (i + k) % len) by (nonlinear_arith)
            requires
                0 <= i < len,
                k >= 1,
        ;
        assert((((i + (k - 1)) % len + 1) % len) == (i + k) % len) by (nonlinear_arith)
            requires
                0 <= i < len,
                k >= 1,
        ;
    }
}

/// Law: on a playlist of length `len >= 1`, advancing `len` times returns
/// the cursor to where it started.
pub proof fn lemma_advance_full_cycle(i: int, len: int)
    requires
        0 <= i < len,
    ensures
        advance_iter(i, len, len as nat) == i,
{
    lemma_advance_iter_mod(i, len, len as nat);
    assert((i + len) % len == i) by (nonlinear_arith)
        requires
            0 <= i < len,
    ;
}

} // verus!
