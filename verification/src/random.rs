//! The uniform random source the materials and the camera consume.
//!
//! The tracer never interprets randomness itself: it draws fixed-point
//! values uniform in `[0, 1)` from a [`RandomSource`]. A `System` source
//! draws fresh entropy from the process-wide generator; a `Replay` source
//! walks a recorded sequence of draws, which makes every run of the tracer
//! on it a pure function of its inputs.

use vstd::prelude::*;

use crate::fixed::{FIX_HALF, FIX_ONE};
use crate::ray::{V3, V3m};

verus! {

/// Relies on `rand::random`, which samples a `StandardUniform` value from
/// the thread-local generator. Nothing can be promised of a random value.
pub assume_specification<T>[ rand::random::<T> ]() -> (r: T)
    where
        rand::distr::StandardUniform: rand::distr::Distribution<T>,
;

/// Where the next draw comes from.
pub enum RandomSource {
    /// Fresh entropy from the process-wide generator.
    System,
    /// A recorded sequence of draws, replayed in order. A value outside
    /// `[0, FIX_ONE)` and every draw past the end of the sequence are read
    /// as one half.
    Replay { draws: Vec<i64>, next: usize },
}

/// The value a replay source yields at position `pos`.
pub open spec fn draw_value(draws: Seq<i64>, pos: int) -> int {
    if 0 <= pos < draws.len() && 0 <= draws[pos] < FIX_ONE {
        draws[pos] as int
    } else {
        FIX_HALF as int
    }
}

/// The position of a replay source after one draw at `pos`.
pub open spec fn next_pos(draws: Seq<i64>, pos: int) -> int {
    if 0 <= pos < draws.len() {
        pos + 1
    } else {
        pos
    }
}

impl RandomSource {
    /// Whether this source replays a recorded sequence.
    pub open spec fn is_replay(self) -> bool {
        self is Replay
    }

    /// The recorded sequence (empty for a system source).
    pub open spec fn sdraws(self) -> Seq<i64> {
        if self is Replay {
            self->draws@
        } else {
            Seq::empty()
        }
    }

    /// The replay position (zero for a system source).
    pub open spec fn spos(self) -> int {
        if self is Replay {
            self->next as int
        } else {
            0
        }
    }

    /// The source `o` is the same replay tape as `self`, read to `pos`.
    pub open spec fn advanced_to(self, o: RandomSource, pos: int) -> bool {
        o.is_replay() == self.is_replay() && o.sdraws() == self.sdraws() && (self.is_replay()
            ==> o.spos() == pos)
    }

    /// Draw one fixed-point value uniform in `[0, 1)`.
    pub fn next_unit(&mut self) -> (r: i64)
        ensures
            0 <= r < FIX_ONE,
            old(self).advanced_to(*final(self), next_pos(old(self).sdraws(), old(self).spos())),
            old(self).is_replay() ==> r == draw_value(old(self).sdraws(), old(self).spos()),
    {
        match self {
            RandomSource::System => {
                let word: u64 = rand::random::<u64>();
                (word % (FIX_ONE as u64)) as i64
            },
            RandomSource::Replay { draws, next } => {
                if *next < draws.len() {
                    let v: i64 = draws[*next];
                    *next = *next + 1;
                    if 0 <= v && v < FIX_ONE {
                        v
                    } else {
                        FIX_HALF
                    }
                } else {
                    FIX_HALF
                }
            },
        }
    }
}

/// One candidate component for rejection sampling: a draw stretched to
/// `[-1, 1)`.
pub open spec fn unit_span(d: int) -> int {
    2 * d - FIX_ONE
}

/// Squared norm of a vector, the quantity rejection sampling tests.
pub open spec fn norm_sq(p: V3m) -> int {
    p.dot(p)
}

/// How many candidate points rejection sampling may draw before it settles
/// for the center of the ball. Each candidate is accepted with probability
/// above one half, so reaching this bound has probability below
/// 2^-16777216; the bound exists so that the sampling loop provably
/// terminates.
pub const RETRY_CAP: u64 = 0x1000000;

/// The point inside the unit ball that rejection sampling accepts when the
/// tape is read from `pos`, with the position after it: three draws give a
/// point in the cube `[-1, 1)^3`, redrawn (at most `tries` times in all)
/// until it falls inside the ball.
pub open spec fn sample_sphere_from(draws: Seq<i64>, pos: int, tries: nat) -> (V3m, int)
    decreases tries,
{
    if tries == 0 {
        (V3m::zero(), pos)
    } else {
        let p0 = next_pos(draws, pos);
        let p1 = next_pos(draws, p0);
        let p2 = next_pos(draws, p1);
        let cand = V3m {
            x: unit_span(draw_value(draws, pos)),
            y: unit_span(draw_value(draws, p0)),
            z: unit_span(draw_value(draws, p1)),
        };
        if norm_sq(cand) < FIX_ONE {
            (cand, p2)
        } else {
            sample_sphere_from(draws, p2, (tries - 1) as nat)
        }
    }
}

/// The accepted unit-ball point and final tape position under the full
/// retry budget.
pub open spec fn sample_sphere(draws: Seq<i64>, pos: int) -> (V3m, int) {
    sample_sphere_from(draws, pos, RETRY_CAP as nat)
}

/// Rejection-sample a point inside the unit ball: almost surely a fresh
/// candidate is accepted within a few draws; see [`RETRY_CAP`].
pub fn random_in_unit_sphere(src: &mut RandomSource) -> (p: V3)
    ensures
        norm_sq(p@) < FIX_ONE,
        -FIX_ONE <= p@.x < FIX_ONE,
        -FIX_ONE <= p@.y < FIX_ONE,
        -FIX_ONE <= p@.z < FIX_ONE,
        old(src).advanced_to(*final(src), sample_sphere(old(src).sdraws(), old(src).spos()).1),
        old(src).is_replay() ==> p@ == sample_sphere(old(src).sdraws(), old(src).spos()).0,
{
    let mut tries: u64 = RETRY_CAP;
    while tries > 0
        invariant
            src.is_replay() == old(src).is_replay(),
            src.sdraws() == old(src).sdraws(),
            src.is_replay() ==> sample_sphere_from(src.sdraws(), src.spos(), tries as nat)
                == sample_sphere(old(src).sdraws(), old(src).spos()),
        decreases tries,
    {
        let d0: i64 = src.next_unit();
        let d1: i64 = src.next_unit();
        let d2: i64 = src.next_unit();
        let p: V3 = V3::new(2 * d0 - FIX_ONE, 2 * d1 - FIX_ONE, 2 * d2 - FIX_ONE);
        if p.dot(&p) < FIX_ONE {
            return p;
        }
        tries = tries - 1;
    }
    V3::new(0, 0, 0)
}

/// As [`sample_sphere`], but in the plane: two draws give a point in the
/// square `[-1, 1)^2`, redrawn until it falls inside the unit disk.
pub open spec fn sample_disk_from(draws: Seq<i64>, pos: int, tries: nat) -> (V3m, int)
    decreases tries,
{
    if tries == 0 {
        (V3m::zero(), pos)
    } else {
        let p0 = next_pos(draws, pos);
        let p1 = next_pos(draws, p0);
        let cand = V3m {
            x: unit_span(draw_value(draws, pos)),
            y: unit_span(draw_value(draws, p0)),
            z: 0,
        };
        if norm_sq(cand) < FIX_ONE {
            (cand, p1)
        } else {
            sample_disk_from(draws, p1, (tries - 1) as nat)
        }
    }
}

/// The accepted unit-disk point and final tape position under the full
/// retry budget.
pub open spec fn sample_disk(draws: Seq<i64>, pos: int) -> (V3m, int) {
    sample_disk_from(draws, pos, RETRY_CAP as nat)
}

/// Rejection-sample a point inside the unit disk of the `x`-`y` plane.
pub fn random_in_unit_disk(src: &mut RandomSource) -> (p: V3)
    ensures
        norm_sq(p@) < FIX_ONE,
        p@.z == 0,
        old(src).advanced_to(*final(src), sample_disk(old(src).sdraws(), old(src).spos()).1),
        old(src).is_replay() ==> p@ == sample_disk(old(src).sdraws(), old(src).spos()).0,
{
    let mut tries: u64 = RETRY_CAP;
    while tries > 0
        invariant
            src.is_replay() == old(src).is_replay(),
            src.sdraws() == old(src).sdraws(),
            src.is_replay() ==> sample_disk_from(src.sdraws(), src.spos(), tries as nat)
                == sample_disk(old(src).sdraws(), old(src).spos()),
        decreases tries,
    {
        let d0: i64 = src.next_unit();
        let d1: i64 = src.next_unit();
        let p: V3 = V3::new(2 * d0 - FIX_ONE, 2 * d1 - FIX_ONE, 0);
        if p.dot(&p) < FIX_ONE {
            return p;
        }
        tries = tries - 1;
    }
    V3::new(0, 0, 0)
}

/// Draw one uniform fixed-point value in `[0, 1)`.
pub fn random_double(src: &mut RandomSource) -> (r: i64)
    ensures
        0 <= r < FIX_ONE,
        old(src).advanced_to(*final(src), next_pos(old(src).sdraws(), old(src).spos())),
        old(src).is_replay() ==> r == draw_value(old(src).sdraws(), old(src).spos()),
{
    src.next_unit()
}

} // verus!
