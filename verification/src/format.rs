//! The display formatter: a pure function from engine state, remaining
//! seconds and the spinner glyph to one renderable line with its colors.

use vstd::prelude::*;
use vstd::string::StringExecFns;

use crate::engine::Phase;

verus! {

/// The two terminal colors the display uses.
#[derive(Clone, Copy, Debug, PartialEq, Eq, Structural)]
pub enum Color {
    Black,
    Green,
}

/// One rendered line, recomputed every tick and never persisted: the
/// spinner glyph with its color pair, and the countdown text with its own,
/// independent color pair. `None` means the terminal's default color.
pub struct RenderFrame {
    pub glyph: char,
    pub glyph_fg: Option<Color>,
    pub glyph_bg: Option<Color>,
    pub time_text: String,
    pub time_fg: Option<Color>,
    pub time_bg: Option<Color>,
}

/// The character for one decimal digit.
pub open spec fn spec_digit_char(d: nat) -> char {
    if d == 0 {
        '0'
    } else if d == 1 {
        '1'
    } else if d == 2 {
        '2'
    } else if d == 3 {
        '3'
    } else if d == 4 {
        '4'
    } else if d == 5 {
        '5'
    } else if d == 6 {
        '6'
    } else if d == 7 {
        '7'
    } else if d == 8 {
        '8'
    } else {
        '9'
    }
}

/// The decimal digits of `n`, most significant first, with no leading
/// zeros (a single `'0'` for zero itself).
pub open spec fn spec_digits(n: nat) -> Seq<char>
    decreases n,
{
    if n < 10 {
        seq![spec_digit_char(n)]
    } else {
        spec_digits(n / 10).push(spec_digit_char(n % 10))
    }
}

/// The decimal digits of `n`, zero-padded on the left to at least two
/// digits.
pub open spec fn spec_pad2(n: nat) -> Seq<char> {
    if n < 10 {
        seq!['0'] + spec_digits(n)
    } else {
        spec_digits(n)
    }
}

/// The countdown text for `secs` remaining seconds: whole minutes and
/// leftover seconds, each zero-padded to two digits, joined by a colon.
pub open spec fn spec_clock_text(secs: nat) -> Seq<char> {
    spec_pad2(secs / 60) + seq![':'] + spec_pad2(secs % 60)
}

/// The countdown text's foreground color for the given phase: the
/// terminal default while active, an accented pair during rest.
pub open spec fn spec_time_fg(p: Phase) -> Option<Color> {
    match p {
        Phase::Active => None,
        Phase::Rest => Some(Color::Black),
    }
}

/// The countdown text's background color for the given phase.
pub open spec fn spec_time_bg(p: Phase) -> Option<Color> {
    match p {
        Phase::Active => Some(Color::Black),
        Phase::Rest => Some(Color::Green),
    }
}

/// The one-character string for a decimal digit.
fn digit_str(d: u64) -> (s: &'static str)
    requires
        d < 10,
    ensures
        s@ == seq![spec_digit_char(d as nat)],
{
    proof {
        reveal_strlit("0");
        reveal_strlit("1");
        reveal_strlit("2");
        reveal_strlit("3");
        reveal_strlit("4");
        reveal_strlit("5");
        reveal_strlit("6");
        reveal_strlit("7");
        reveal_strlit("8");
        reveal_strlit("9");
    }
    let s = if d == 0 {
        "0"
    } else if d == 1 {
        "1"
    } else if d == 2 {
        "2"
    } else if d == 3 {
        "3"
    } else if d == 4 {
        "4"
    } else if d == 5 {
        "5"
    } else if d == 6 {
        "6"
    } else if d == 7 {
        "7"
    } else if d == 8 {
        "8"
    } else {
        "9"
    };
    proof {
        assert(s@ =~= seq![spec_digit_char(d as nat)]);
    }
    s
}

/// Append the decimal digits of `n` to `out`.
fn push_digits(n: u64, out: &mut String)
    ensures
        final(out)@ == old(out)@ + spec_digits(n as nat),
    decreases n,
{
    if n >= 10 {
        push_digits(n / 10, out);
    }
    out.append(digit_str(n % 10));
    proof {
        assert(out@ =~= old(out)@ + spec_digits(n as nat));
    }
}

/// Append the decimal digits of `n`, zero-padded to at least two digits.
fn push_pad2(n: u64, out: &mut String)
    ensures
        final(out)@ == old(out)@ + spec_pad2(n as nat),
{
    if n < 10 {
        proof {
            reveal_strlit("0");
        }
        out.append("0");
    }
    push_digits(n, out);
    proof {
        assert(out@ =~= old(out)@ + spec_pad2(n as nat));
    }
}

/// Compose one render frame from the current phase, the remaining whole
/// seconds, and the spinner glyph to show. A pure, total function of its
/// three inputs: the countdown text is minutes and seconds (integer
/// division and remainder by sixty), each zero-padded to two digits; the
/// colors are keyed by the phase alone, the glyph's pair independently of
/// the countdown's.
pub fn format_frame(phase: Phase, remaining_secs: u64, glyph: char) -> (f: RenderFrame)
    ensures
        f.glyph == glyph,
        f.glyph_fg == Some(Color::Green),
        f.glyph_bg == Some(Color::Black),
        f.time_text@ == spec_clock_text(remaining_secs as nat),
        f.time_fg == spec_time_fg(phase),
        f.time_bg == spec_time_bg(phase),
{
    let mut time_text = String::new();
    push_pad2(remaining_secs / 60, &mut time_text);
    proof {
        reveal_strlit(":");
    }
    time_text.append(":");
    push_pad2(remaining_secs % 60, &mut time_text);
    proof {
        assert(time_text@ =~= spec_clock_text(remaining_secs as nat));
    }

    let (time_fg, time_bg) = match phase {
        Phase::Active => (None, Some(Color::Black)),
        Phase::Rest => (Some(Color::Black), Some(Color::Green)),
    };

    RenderFrame {
        glyph,
        glyph_fg: Some(Color::Green),
        glyph_bg: Some(Color::Black),
        time_text,
        time_fg,
        time_bg,
    }
}

} // verus!
