//! The playback driver: animation state, the per-tick advance decision and
//! the index arithmetic that wraps the current frame around the sequence.

use vstd::prelude::*;
use vstd::arithmetic::div_mod::{
    lemma_add_mod_noop,
    lemma_add_mod_noop_right,
    lemma_mod_add_multiples_vanish,
    lemma_mod_bound,
    lemma_mod_multiples_vanish,
    lemma_small_mod,
};

verus! {

/// Milliseconds between two redraw ticks: the fixed rate at which the
/// surrounding render loop calls [`Playback::tick`].
pub const REDRAW_INTERVAL_MS: u32 = 8;

/// The direction in which the animation steps through the frame sequence.
#[derive(Clone, Copy, Debug, PartialEq, Eq, Structural)]
pub enum Direction {
    Forward,
    Backward,
}

/// How many redraw ticks elapse between two frame advances: `speed`
/// milliseconds per frame divided by `interval_ms` milliseconds per tick,
/// never less than one tick.
pub open spec fn frames_per_tick_spec(speed: u32, interval_ms: u32) -> u32 {
    if speed / interval_ms == 0 {
        1u32
    } else {
        speed / interval_ms
    }
}

/// Number of redraw ticks to hold each frame for: the playback speed in
/// milliseconds per frame over the tick interval, guarded so that it is
/// never zero.
pub fn frames_per_tick(speed: u32, interval_ms: u32) -> (r: u32)
    requires
        interval_ms >= 1,
    ensures
        r == frames_per_tick_spec(speed, interval_ms),
        r >= 1,
{
    let quotient: u32 = speed / interval_ms;
    if quotient == 0 {
        1
    } else {
        quotient
    }
}

/// How far one advance moves the current index, as an offset modulo the
/// sequence length `n`: one step forward, or `n - 1` forward, which is one
/// step backward.
pub open spec fn step_delta(n: int, direction: Direction) -> int {
    if direction == Direction::Forward {
        1
    } else {
        n - 1
    }
}

/// The index shown after one advance from index `i` in a sequence of `n`
/// frames: the next index in the given direction, wrapping modulo `n`.
pub open spec fn step_index(i: int, n: int, direction: Direction) -> int {
    (i + step_delta(n, direction)) % n
}

/// The animation state: playback speed, direction, and the index of the
/// frame currently shown.
#[derive(Clone, Copy, Debug, PartialEq, Eq, Structural)]
pub struct AnimState {
    /// Milliseconds of wall-clock time per displayed frame.
    pub speed: u32,
    /// Which neighbouring frame an advance moves to.
    pub direction: Direction,
    /// Index of the frame currently shown, in `[0, frame_count)`.
    pub cur_image: usize,
}

impl AnimState {
    /// Move the current index one step in the configured direction,
    /// wrapping around the ends of a sequence of `frame_count` frames.
    pub fn advance(&mut self, frame_count: usize)
        requires
            frame_count > 0,
            old(self).cur_image < frame_count,
        ensures
            final(self).cur_image == step_index(
                old(self).cur_image as int,
                frame_count as int,
                old(self).direction,
            ),
            final(self).cur_image < frame_count,
            final(self).speed == old(self).speed,
            final(self).direction == old(self).direction,
    {
        match self.direction {
            Direction::Forward => {
                self.cur_image = (self.cur_image + 1) % frame_count;
                proof {
                    lemma_mod_bound(old(self).cur_image + 1, frame_count as int);
                }
            }
            Direction::Backward => {
                if self.cur_image == 0 {
                    self.cur_image = frame_count - 1;
                    proof {
                        lemma_small_mod((frame_count - 1) as nat, frame_count as nat);
                    }
                } else {
                    self.cur_image = self.cur_image - 1;
                    proof {
                        lemma_mod_add_multiples_vanish(
                            old(self).cur_image - 1,
                            frame_count as int,
                        );
                        lemma_small_mod(
                            (old(self).cur_image - 1) as nat,
                            frame_count as nat,
                        );
                    }
                }
            }
        }
    }
}

/// The index shown after `k` advances from index `i`, each one step in the
/// given direction through a sequence of `n` frames.
pub open spec fn step_index_n(i: int, n: int, direction: Direction, k: nat) -> int
    decreases k,
{
    if k == 0 {
        i
    } else {
        step_index(step_index_n(i, n, direction, (k - 1) as nat), n, direction)
    }
}

/// `k` advances from `i` land on `(i + k * step_delta) % n`: iterated
/// stepping is one modular addition.
proof fn lemma_step_index_n_linear(i: int, n: int, direction: Direction, k: nat)
    requires
        n > 0,
        0 <= i < n,
    ensures
        step_index_n(i, n, direction, k) == (i + k * step_delta(n, direction)) % n,
    decreases k,
{
    let d = step_delta(n, direction);
    if k == 0 {
        assert(k * d == 0) by (nonlinear_arith)
            requires k == 0;
        lemma_small_mod(i as nat, n as nat);
    } else {
        let prev = (k - 1) as nat;
        lemma_step_index_n_linear(i, n, direction, prev);
        assert(prev * d + d == k * d) by (nonlinear_arith)
            requires prev + 1 == k;
        lemma_add_mod_noop_right((i + prev * d) % n, d, n);
        lemma_add_mod_noop(i + prev * d, d, n);
    }
}

/// Cyclic invariant, forward: from any valid index, advancing forward once
/// per frame of the sequence comes back to the index it started from.
pub proof fn lemma_forward_cycle(i: int, n: int)
    requires
        n > 0,
        0 <= i < n,
    ensures
        step_index_n(i, n, Direction::Forward, n as nat) == i,
{
    lemma_cycle(i, n, Direction::Forward);
}

/// Cyclic invariant, backward: from any valid index, advancing backward
/// once per frame of the sequence comes back to the index it started from.
pub proof fn lemma_backward_cycle(i: int, n: int)
    requires
        n > 0,
        0 <= i < n,
    ensures
        step_index_n(i, n, Direction::Backward, n as nat) == i,
{
    lemma_cycle(i, n, Direction::Backward);
}

/// In either direction, `n` advances through a sequence of `n` frames make
/// a full cycle: the offset `n * step_delta` is a multiple of `n`.
proof fn lemma_cycle(i: int, n: int, direction: Direction)
    requires
        n > 0,
        0 <= i < n,
    ensures
        step_index_n(i, n, direction, n as nat) == i,
{
    let d = step_delta(n, direction);
    lemma_step_index_n_linear(i, n, direction, n as nat);
    assert((n as nat) * d == n * d) by (nonlinear_arith)
        requires n > 0;
    lemma_mod_multiples_vanish(d, i, n);
    lemma_small_mod(i as nat, n as nat);
}

/// Why playback could not start.
#[derive(Clone, Copy, Debug, PartialEq, Eq, Structural)]
pub enum PlaybackError {
    /// The loader produced no frames, so there is nothing to show.
    EmptySequence,
}

impl PlaybackError {
    /// A diagnostic for the surrounding application to report.
    pub fn message(&self) -> (r: &'static str)
        ensures
            r@ == "no frames were loaded, so playback cannot start"@,
    {
        "no frames were loaded, so playback cannot start"
    }
}

/// The playback driver: the animation state, the tick counter and the
/// length of the frame sequence it steps through.
#[derive(Clone, Copy, Debug, PartialEq, Eq, Structural)]
pub struct Playback {
    /// The mutable animation state.
    pub anim: AnimState,
    /// Redraw ticks seen since the last frame advance.
    pub tick_counter: u32,
    /// Number of frames in the sequence; fixed at startup, never zero.
    pub frame_count: usize,
}

impl Playback {
    /// The driver's invariant: the sequence is non-empty, the current
    /// index lies inside it, and the tick counter has not yet reached the
    /// per-frame tick budget.
    pub open spec fn wf(self) -> bool {
        &&& self.frame_count > 0
        &&& self.anim.cur_image < self.frame_count
        &&& self.tick_counter < frames_per_tick_spec(self.anim.speed, REDRAW_INTERVAL_MS)
    }

    /// Start playback over a sequence of `frame_count` frames, at the
    /// first frame, with a fresh tick counter. An empty sequence is
    /// refused before any rendering can be attempted.
    pub fn new(frame_count: usize, speed: u32, direction: Direction) -> (r: Result<
        Playback,
        PlaybackError,
    >)
        ensures
            frame_count == 0 ==> r == Err::<Playback, PlaybackError>(
                PlaybackError::EmptySequence,
            ),
            frame_count > 0 ==> (r matches Ok(p) && p.wf() && p == (Playback {
                anim: AnimState { speed, direction, cur_image: 0 },
                tick_counter: 0,
                frame_count,
            })),
    {
        if frame_count == 0 {
            Err(PlaybackError::EmptySequence)
        } else {
            Ok(Playback {
                anim: AnimState { speed, direction, cur_image: 0 },
                tick_counter: 0,
                frame_count,
            })
        }
    }

    /// One redraw tick. Count the tick; once the count reaches the
    /// per-frame tick budget, advance the current index one step in the
    /// configured direction, reset the counter, and report `true` so that
    /// the caller uploads the new frame and redraws. On every other tick
    /// the frame is merely held and `false` is reported.
    pub fn tick(&mut self) -> (advanced: bool)
        requires
            old(self).wf(),
        ensures
            final(self).wf(),
            final(self).frame_count == old(self).frame_count,
            final(self).anim.speed == old(self).anim.speed,
            final(self).anim.direction == old(self).anim.direction,
            advanced == (old(self).tick_counter + 1 == frames_per_tick_spec(
                old(self).anim.speed,
                REDRAW_INTERVAL_MS,
            )),
            advanced ==> final(self).tick_counter == 0 && final(self).anim.cur_image
                == step_index(
                old(self).anim.cur_image as int,
                old(self).frame_count as int,
                old(self).anim.direction,
            ),
            !advanced ==> final(self).tick_counter == old(self).tick_counter + 1
                && final(self).anim.cur_image == old(self).anim.cur_image,
    {
        let budget: u32 = frames_per_tick(self.anim.speed, REDRAW_INTERVAL_MS);
        self.tick_counter = self.tick_counter + 1;
        if self.tick_counter == budget {
            self.tick_counter = 0;
            self.anim.advance(self.frame_count);
            true
        } else {
            false
        }
    }
}

} // verus!
