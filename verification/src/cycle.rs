//! The window cycle: an infinite, restartable cursor over a fixed frame
//! sequence.
use vstd::prelude::*;

use crate::errors::WindowError;
use crate::frames::{frames_seq, generate_windows};
use crate::style::BracketStyle;

verus! {

/// The frame shown at logical position `n` of the infinite repetition of
/// `frames`.
pub open spec fn cycle_frame(frames: Seq<Seq<char>>, n: int) -> Seq<char> {
    frames[n % frames.len() as int]
}

/// A cursor over a non-empty frame sequence that wraps around forever.
pub struct WindowCycle {
    frames: Vec<String>,
    cursor: usize,
    position: Ghost<int>,
}

impl WindowCycle {
    /// The frame sequence this cycle repeats.
    pub closed spec fn model(&self) -> Seq<Seq<char>> {
        Seq::new(self.frames@.len(), |i: int| self.frames@[i]@)
    }

    /// How many frames have been taken from this cycle.
    pub closed spec fn taken(&self) -> int {
        self.position@
    }

    /// The cycle repeats a non-empty sequence and its cursor stands where
    /// the count of taken frames says.
    pub closed spec fn wf(&self) -> bool {
        &&& self.frames@.len() > 0
        &&& self.cursor < self.frames@.len()
        &&& self.position@ >= 0
        &&& self.cursor as int == self.position@ % self.frames@.len() as int
    }

    /// Wraps a non-empty frame sequence in a fresh cycle.
    pub fn new(frames: Vec<String>) -> (r: WindowCycle)
        requires
            frames@.len() > 0,
        ensures
            r.wf(),
            r.taken() == 0,
            r.model().len() == frames@.len(),
            forall|i: int| 0 <= i < frames@.len() ==> r.model()[i] == frames@[i]@,
    {
        let r = WindowCycle { frames, cursor: 0, position: Ghost(0) };
        proof {
            vstd::arithmetic::div_mod::lemma_small_mod(0, r.frames@.len());
        }
        r
    }

    /// How many frames one pass over the underlying sequence takes.
    pub fn len(&self) -> (r: usize)
        ensures
            r == self.model().len(),
    {
        self.frames.len()
    }

    /// Hands out the frame at the current logical position and advances the
    /// cursor, wrapping around at the end of the sequence.
    pub fn next_frame(&mut self) -> (r: String)
        requires
            old(self).wf(),
        ensures
            final(self).wf(),
            final(self).model() == old(self).model(),
            final(self).taken() == old(self).taken() + 1,
            r@ == cycle_frame(old(self).model(), old(self).taken()),
    {
        let n = self.frames.len();
        let r = self.frames[self.cursor].clone();
        proof {
            vstd::arithmetic::div_mod::lemma_add_mod_noop(self.position@, 1, n as int);
            if n == 1 {
                vstd::arithmetic::div_mod::lemma_mod_self_0(1);
                vstd::arithmetic::div_mod::lemma_small_mod(0, 1);
            } else {
                vstd::arithmetic::div_mod::lemma_small_mod(1, n as nat);
                if self.cursor + 1 < n {
                    vstd::arithmetic::div_mod::lemma_small_mod((self.cursor + 1) as nat, n as nat);
                } else {
                    vstd::arithmetic::div_mod::lemma_mod_self_0(n as int);
                }
            }
        }
        self.cursor = if self.cursor + 1 == n {
            0
        } else {
            self.cursor + 1
        };
        self.position = Ghost(self.position@ + 1);
        proof {
            assert(final(self).model() =~= old(self).model());
        }
        r
    }
}

/// The frame at any logical position `n` is the frame of the underlying
/// sequence at `n` modulo its length; consuming any number of frames is
/// well-defined.
pub proof fn lemma_cycle_position(frames: Seq<Seq<char>>, n: int)
    requires
        frames.len() > 0,
        n >= 0,
    ensures
        cycle_frame(frames, n) == frames[n % frames.len() as int],
        cycle_frame(frames, n) == cycle_frame(frames, n % frames.len() as int),
{
    let m = frames.len() as int;
    vstd::arithmetic::div_mod::lemma_mod_twice(n, m);
}

/// One whole pass later the cycle shows the same frame again: repeating the
/// sequence reproduces it exactly.
pub proof fn lemma_cycle_periodic(frames: Seq<Seq<char>>, n: int)
    requires
        frames.len() > 0,
        n >= 0,
    ensures
        cycle_frame(frames, n + frames.len()) == cycle_frame(frames, n),
{
    let m = frames.len() as int;
    vstd::arithmetic::div_mod::lemma_mod_add_multiples_vanish(n, m);
}

/// Builds the frame sequence for the given parameters and wraps it in a
/// fresh cycle; fails with `InvalidWindowSize` when the window is narrower
/// than the text.
pub fn window_generator(
    text: &str,
    background: char,
    window_size: u64,
    bracket_style: BracketStyle,
) -> (r: Result<WindowCycle, WindowError>)
    ensures
        match r {
            Ok(c) => {
                &&& text@.len() <= window_size
                &&& c.wf()
                &&& c.taken() == 0
                &&& c.model() == frames_seq(text@, background, window_size as int, bracket_style)
            },
            Err(e) => e == WindowError::InvalidWindowSize && text@.len() > window_size,
        },
{
    let frames = match generate_windows(text, background, window_size, bracket_style) {
        Ok(v) => v,
        Err(e) => {
            return Err(e);
        },
    };
    proof {
        assert(frames@.len() >= 1);
    }
    let c = WindowCycle::new(frames);
    proof {
        assert(c.model() =~= frames_seq(text@, background, window_size as int, bracket_style));
    }
    Ok(c)
}

} // verus!
