//! The spinner animator: a fixed cyclic sequence of glyphs, advanced once
//! per rendered tick, with a distinct sequence per phase.

use vstd::prelude::*;
use vstd::arithmetic::div_mod::{
    lemma_add_mod_noop,
    lemma_mod_bound,
    lemma_mod_self_0,
    lemma_small_mod,
};

use crate::engine::Phase;

verus! {

/// The glyph sequence shown while the active phase runs.
pub open spec fn active_glyphs() -> Seq<char> {
    seq!['\u{2822}', '\u{2812}', '\u{2814}', '\u{2824}']
}

/// The glyph sequence shown while the rest phase runs.
pub open spec fn rest_glyphs() -> Seq<char> {
    seq!['\u{2836}', ' ']
}

/// The glyph sequence that signals the given phase.
pub open spec fn phase_glyphs(p: Phase) -> Seq<char> {
    match p {
        Phase::Active => active_glyphs(),
        Phase::Rest => rest_glyphs(),
    }
}

/// The animation state: an ordered, non-empty glyph sequence and the index
/// of the next glyph to show.
pub struct Spinner {
    pub animation: Vec<char>,
    pub current_frame: usize,
}

impl Spinner {
    /// The sequence is never empty and the index is always a valid offset
    /// into it.
    pub open spec fn wf(self) -> bool {
        &&& self.animation@.len() >= 1
        &&& self.current_frame < self.animation@.len()
    }

    /// The spinner shown while the active phase runs, starting at the first
    /// glyph.
    pub fn default() -> (s: Spinner)
        ensures
            s.animation@ == active_glyphs(),
            s.current_frame == 0,
            s.wf(),
    {
        let mut animation: Vec<char> = Vec::new();
        animation.push('\u{2822}');
        animation.push('\u{2812}');
        animation.push('\u{2814}');
        animation.push('\u{2824}');
        proof {
            assert(animation@ =~= active_glyphs());
        }
        Spinner { animation, current_frame: 0 }
    }

    /// The spinner shown while the rest phase runs, starting at the first
    /// glyph.
    pub fn beep() -> (s: Spinner)
        ensures
            s.animation@ == rest_glyphs(),
            s.current_frame == 0,
            s.wf(),
    {
        let mut animation: Vec<char> = Vec::new();
        animation.push('\u{2836}');
        animation.push(' ');
        proof {
            assert(animation@ =~= rest_glyphs());
        }
        Spinner { animation, current_frame: 0 }
    }

    /// The spinner that signals the given phase, starting at the first
    /// glyph. Installed whenever the phase changes.
    pub fn for_phase(p: Phase) -> (s: Spinner)
        ensures
            s.animation@ == phase_glyphs(p),
            s.current_frame == 0,
            s.wf(),
    {
        match p {
            Phase::Active => Spinner::default(),
            Phase::Rest => Spinner::beep(),
        }
    }

    /// Return the glyph at the current index, then advance the index by one
    /// modulo the sequence length. The sequence itself never changes here.
    pub fn next_frame(&mut self) -> (c: char)
        requires
            old(self).wf(),
        ensures
            c == old(self).animation@[old(self).current_frame as int],
            final(self).animation@ == old(self).animation@,
            final(self).current_frame == (old(self).current_frame + 1) as int
                % old(self).animation@.len() as int,
            final(self).wf(),
    {
        let frame = self.current_frame;
        let len = self.animation.len();

        let next = frame + 1;
        self.current_frame = if next >= len {
            0
        } else {
            next
        };
        proof {
            if frame + 1 == len {
                lemma_mod_self_0(len as int);
            } else {
                lemma_small_mod((frame + 1) as nat, len as nat);
            }
        }

        self.animation[frame]
    }
}

/// The index reached from `i` after `n` advances, each one step forward
/// modulo `len`.
pub open spec fn iterated_advance(i: nat, len: nat, n: nat) -> nat
    decreases n,
{
    if n == 0 {
        i
    } else {
        (iterated_advance(i, len, (n - 1) as nat) + 1) % len
    }
}

/// The spinner index cycles. Advancing one step at a time modulo the
/// sequence length `len`, the index after `n` advances from `i` is
/// `(i + n) % len`; so after exactly `len` advances the index is back at
/// `i`, and the index — hence the glyph returned by `next_frame`, which the
/// index alone selects from the unchanged sequence — is the same on advance
/// `n` and on advance `n + len`: the returned glyph sequence repeats
/// identically with period `len`.
pub proof fn lemma_spinner_cycles(i: nat, len: nat, n: nat)
    requires
        len >= 1,
        i < len,
    ensures
        iterated_advance(i, len, n) == (i + n) % len,
        iterated_advance(i, len, len) == i,
        iterated_advance(i, len, n + len) == iterated_advance(i, len, n),
{
    lemma_advance_formula(i, len, n);
    lemma_advance_formula(i, len, len);
    lemma_advance_formula(i, len, n + len);
    lemma_mod_self_0(len as int);
    lemma_small_mod(i, len);
    lemma_add_mod_noop(i as int, len as int, len as int);
    lemma_add_mod_noop((i + n) as int, len as int, len as int);
    lemma_mod_bound((i + n) as int, len as int);
    lemma_small_mod((i + n) % len, len);
}

/// The index reached after `n` single-step advances from `i` is
/// `(i + n) % len`, by induction on `n`.
proof fn lemma_advance_formula(i: nat, len: nat, n: nat)
    requires
        len >= 1,
        i < len,
    ensures
        iterated_advance(i, len, n) == (i + n) % len,
    decreases n,
{
    if n == 0 {
        lemma_small_mod(i, len);
    } else {
        lemma_advance_formula(i, len, (n - 1) as nat);
        lemma_add_mod_noop((i + n - 1) as int, 1, len as int);
        if len == 1 {
            lemma_mod_self_0(1);
            lemma_mod_bound((i + n - 1) as int, 1);
            lemma_mod_bound((i + n) as int, 1);
        } else {
            lemma_small_mod(1, len);
        }
        assert((((i + n - 1) as int % (len as int) + 1 as int % (len as int)) % (len as int)) == (
        (i + n) as int % (len as int)));
    }
}

} // verus!
