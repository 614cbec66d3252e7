//! Volume control and time formatting. Volume is carried as an integer
//! number of hundredths, so that the full scale runs from 0 to
//! `VOLUME_MAX`; one key press moves it by `VOLUME_STEP` and the result is
//! clamped to the scale.

use vstd::prelude::*;

verus! {

/// One volume step, in hundredths of full scale.
pub const VOLUME_STEP: u32 = 10;

/// Full volume, in hundredths of full scale.
pub const VOLUME_MAX: u32 = 100;

/// The volume that one adjustment step yields: up adds a step and clamps to
/// full scale, down subtracts a step and clamps to silence.
pub open spec fn spec_adjust_volume(v: int, increase: bool) -> int {
    if increase {
        if v + VOLUME_STEP <= VOLUME_MAX {
            v + VOLUME_STEP
        } else {
            VOLUME_MAX as int
        }
    } else {
        if v >= VOLUME_STEP {
            v - VOLUME_STEP
        } else {
            0
        }
    }
}

/// The volume after `k` upward adjustment steps from `v`.
pub open spec fn adjust_up_iter(v: int, k: nat) -> int
    decreases k,
{
    if k == 0 {
        v
    } else {
        spec_adjust_volume(adjust_up_iter(v, (k - 1) as nat), true)
    }
}

/// Moves the volume one step up or down, clamped to the `[0, VOLUME_MAX]`
/// scale.
pub fn adjust_volume(current: u32, increase: bool) -> (r: u32)
    requires
        current <= VOLUME_MAX,
    ensures
        r == spec_adjust_volume(current as int, increase),
        r <= VOLUME_MAX,
{
    if increase {
        if current + VOLUME_STEP <= VOLUME_MAX {
            current + VOLUME_STEP
        } else {
            VOLUME_MAX
        }
    } else {
        if current >= VOLUME_STEP {
            current - VOLUME_STEP
        } else {
            0
        }
    }
}

/// Law: one upward step never lowers the volume and never exceeds full
/// scale, and full scale is a fixed point.
pub proof fn lemma_volume_up_bounds(v: int)
    requires
        0 <= v <= VOLUME_MAX,
    ensures
        v <= spec_adjust_volume(v, true) <= VOLUME_MAX,
        spec_adjust_volume(VOLUME_MAX as int, true) == VOLUME_MAX,
{
}

/// Law: one downward step never raises the volume and never drops below
/// silence, and silence is a fixed point.
pub proof fn lemma_volume_down_bounds(v: int)
    requires
        0 <= v <= VOLUME_MAX,
    ensures
        0 <= spec_adjust_volume(v, false) <= v,
        spec_adjust_volume(0, false) == 0,
{
}

/// Law: repeated upward steps approach full scale monotonically and never
/// exceed it.
pub proof fn lemma_volume_up_repeated(v: int, k: nat)
    requires
        0 <= v <= VOLUME_MAX,
    ensures
        v <= adjust_up_iter(v, k) <= VOLUME_MAX,
        adjust_up_iter(v, k) <= adjust_up_iter(v, k + 1),
    decreases k,
{
    if k > 0 {
        lemma_volume_up_repeated(v, (k - 1) as nat);
    }
}

/// The character for one decimal digit.
pub open spec fn digit_char(d: int) -> char {
    if d == 0 {
        '0'
    } else if d == 1 {
        '1'
    } else if d == 2 {
        '2'
    } else if d == 3 {
        '3'
    } else if d == 4 {
        '4'
    } else if d == 5 {
        '5'
    } else if d == 6 {
        '6'
    } else if d == 7 {
        '7'
    } else if d == 8 {
        '8'
    } else {
        '9'
    }
}

/// The decimal digits of `n`, most significant first.
pub open spec fn dec_digits(n: nat) -> Seq<char>
    decreases n,
{
    if n < 10 {
        seq![digit_char(n as int)]
    } else {
        dec_digits(n / 10).push(digit_char((n % 10) as int))
    }
}

/// The decimal digits of `n`, zero-padded on the left to at least two
/// characters.
pub open spec fn padded2(n: nat) -> Seq<char> {
    if n < 10 {
        seq!['0'] + dec_digits(n)
    } else {
        dec_digits(n)
    }
}

/// A duration of `seconds` rendered as minutes and seconds, each
/// zero-padded to at least two digits and separated by a colon.
pub open spec fn spec_format_time(seconds: nat) -> Seq<char> {
    padded2(seconds / 60) + seq![':'] + padded2(seconds % 60)
}

/// The one-character string for a decimal digit.
fn digit_str(d: u64) -> (r: &'static str)
    requires
        d < 10,
    ensures
        r@ == seq![digit_char(d as int)],
{
    let r: &'static str = if d == 0 {
        "0"
    } else if d == 1 {
        "1"
    } else if d == 2 {
        "2"
    } else if d == 3 {
        "3"
    } else if d == 4 {
        "4"
    } else if d == 5 {
        "5"
    } else if d == 6 {
        "6"
    } else if d == 7 {
        "7"
    } else if d == 8 {
        "8"
    } else {
        "9"
    };
    proof {
        reveal_strlit("0");
        reveal_strlit("1");
        reveal_strlit("2");
        reveal_strlit("3");
        reveal_strlit("4");
        reveal_strlit("5");
        reveal_strlit("6");
        reveal_strlit("7");
        reveal_strlit("8");
        reveal_strlit("9");
        assert(r@ =~= seq![digit_char(d as int)]);
    }
    r
}

/// Renders `n` in decimal.
fn dec_str(n: u64) -> (r: String)
    ensures
        r@ == dec_digits(n as nat),
    decreases n,
{
    if n < 10 {
        String::from_str(digit_str(n))
    } else {
        proof {
            assert(n / 10 < n) by (nonlinear_arith)
                requires
                    n >= 10,
            ;
        }
        let mut s = dec_str(n / 10);
        s.append(digit_str(n % 10));
        proof {
            assert(s@ =~= dec_digits(n as nat));
        }
        s
    }
}

/// Renders `n` in decimal, zero-padded on the left to at least two digits.
fn padded2_str(n: u64) -> (r: String)
    ensures
        r@ == padded2(n as nat),
{
    if n < 10 {
        let mut s = String::from_str("0");
        s.append(digit_str(n));
        proof {
            reveal_strlit("0");
            assert(s@ =~= padded2(n as nat));
        }
        s
    } else {
        dec_str(n)
    }
}

/// Formats a time given in seconds as zero-padded minutes and seconds
/// separated by a colon.
pub fn format_time(seconds: u64) -> (r: String)
    ensures
        r@ == spec_format_time(seconds as nat),
{
    let mut s = padded2_str(seconds / 60);
    s.append(":");
    let rest = padded2_str(seconds % 60);
    s.append(rest.as_str());
    proof {
        reveal_strlit(":");
        assert(s@ =~= spec_format_time(seconds as nat));
    }
    s
}

} // verus!
