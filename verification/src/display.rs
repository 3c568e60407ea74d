//! The render adapter: a pure function from the timer state to a display
//! snapshot (an `MM:SS` remaining-time string, a progress ratio in
//! thousandths, and the paused flag). Drawing the snapshot is the caller's
//! concern.

use vstd::prelude::*;
use vstd::string::StringExecFns;
use crate::timer::Timer;

verus! {

/// The character for one decimal digit.
pub open spec fn digit_char(d: int) -> char {
    if d == 0 {
        '0'
    } else if d == 1 {
        '1'
    } else if d == 2 {
        '2'
    } else if d == 3 {
        '3'
    } else if d == 4 {
        '4'
    } else if d == 5 {
        '5'
    } else if d == 6 {
        '6'
    } else if d == 7 {
        '7'
    } else if d == 8 {
        '8'
    } else {
        '9'
    }
}

/// The decimal digits of `n`, most significant first, no leading zeros
/// (a single `'0'` for zero).
pub open spec fn dec_seq(n: nat) -> Seq<char>
    decreases n,
{
    if n < 10 {
        seq![digit_char(n as int)]
    } else {
        dec_seq(n / 10).push(digit_char((n % 10) as int))
    }
}

/// The decimal digits of `n`, zero-padded on the left to at least two digits.
pub open spec fn pad2_seq(n: nat) -> Seq<char> {
    if n < 10 {
        seq!['0'] + dec_seq(n)
    } else {
        dec_seq(n)
    }
}

/// The `MM:SS` rendering of a whole number of seconds: whole minutes, a
/// colon, then the leftover seconds, each zero-padded to two digits.
pub open spec fn mmss_seq(total_secs: nat) -> Seq<char> {
    pad2_seq(total_secs / 60) + seq![':'] + pad2_seq(total_secs % 60)
}

/// The single-character string for one decimal digit.
fn digit_str(d: u64) -> (s: &'static str)
    requires
        d < 10,
    ensures
        s@ == seq![digit_char(d as int)],
{
    proof {
        reveal_strlit("0");
        reveal_strlit("1");
        reveal_strlit("2");
        reveal_strlit("3");
        reveal_strlit("4");
        reveal_strlit("5");
        reveal_strlit("6");
        reveal_strlit("7");
        reveal_strlit("8");
        reveal_strlit("9");
    }
    let s: &'static str = if d == 0 {
        "0"
    } else if d == 1 {
        "1"
    } else if d == 2 {
        "2"
    } else if d == 3 {
        "3"
    } else if d == 4 {
        "4"
    } else if d == 5 {
        "5"
    } else if d == 6 {
        "6"
    } else if d == 7 {
        "7"
    } else if d == 8 {
        "8"
    } else {
        "9"
    };
    proof {
        assert(s@ =~= seq![digit_char(d as int)]);
    }
    s
}

/// Renders `n` in decimal, no leading zeros.
pub fn u64_to_dec(n: u64) -> (s: String)
    ensures
        s@ == dec_seq(n as nat),
    decreases n,
{
    if n < 10 {
        String::from_str(digit_str(n))
    } else {
        let mut s = u64_to_dec(n / 10);
        s.append(digit_str(n % 10));
        proof {
            assert(s@ =~= dec_seq(n as nat));
        }
        s
    }
}

/// Renders `n` in decimal, zero-padded on the left to at least two digits.
pub fn u64_to_dec_pad2(n: u64) -> (s: String)
    ensures
        s@ == pad2_seq(n as nat),
{
    if n < 10 {
        proof {
            reveal_strlit("0");
        }
        let mut s = String::from_str("0");
        s.append(digit_str(n));
        proof {
            assert(s@ =~= pad2_seq(n as nat));
        }
        s
    } else {
        u64_to_dec(n)
    }
}

/// Formats a whole number of seconds as `MM:SS` (each part zero-padded to at
/// least two digits; minutes over 99 take as many digits as they need).
pub fn format_mm_ss(total_secs: u64) -> (s: String)
    ensures
        s@ == mmss_seq(total_secs as nat),
{
    proof {
        reveal_strlit(":");
    }
    let mut s = u64_to_dec_pad2(total_secs / 60);
    s.append(":");
    let rest = u64_to_dec_pad2(total_secs % 60);
    s.append(rest.as_str());
    proof {
        assert(s@ =~= mmss_seq(total_secs as nat));
    }
    s
}

/// What one frame of the display shows, computed from the timer state alone.
pub struct Snapshot {
    /// The remaining time as `MM:SS` (whole seconds, rounded down).
    pub remaining_text: String,
    /// Progress through the countdown in thousandths (0 ..= 1000).
    pub progress_permille: u64,
    /// Whether the timer is paused.
    pub paused: bool,
}

/// Builds the display snapshot for the timer at clock reading `now`.
pub fn render_snapshot(t: &Timer, now: u64) -> (s: Snapshot)
    requires
        t.wf(),
    ensures
        s.remaining_text@ == mmss_seq((t.spec_remaining(now) / 1000) as nat),
        s.progress_permille == t.spec_progress_permille(now),
        s.paused == t.paused,
{
    let remaining_secs = t.remaining(now) / 1000;
    Snapshot {
        remaining_text: format_mm_ss(remaining_secs),
        progress_permille: t.progress_permille(now),
        paused: t.paused,
    }
}

} // verus!
