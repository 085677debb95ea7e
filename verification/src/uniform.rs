//! The small uniform the fragment shader reads: a 2D texture-coordinate
//! offset derived from the animation phases.
//!
//! The offset is `(sin(phase) + 1) / 100` per component. The sine itself is
//! computed by the unverified shell; this module takes it as a fixed-point
//! argument (units of [`UNIT_SCALE`](crate::animation::UNIT_SCALE), so a
//! value in `[-UNIT_SCALE, UNIT_SCALE]`) and derives the offset exactly.

use vstd::prelude::*;
use crate::animation::UNIT_SCALE;

verus! {

/// The largest offset a component can take: `(1 + 1) / 100` in fixed-point
/// units, that is 0.02.
pub const MAX_OFFSET: i64 = 200_000;

/// The offset derived from a sine value `s` in `[-UNIT_SCALE, UNIT_SCALE]`:
/// `(s + 1) / 100` carried out in fixed-point units.
pub open spec fn offset_of_sine(s: int) -> int {
    (s + UNIT_SCALE) / 100
}

/// The uniform buffer contents: the animated offset and two padding slots.
///
/// The padding pair exists only to reach the 16-byte minimum size of a
/// uniform binding; it carries no meaning and is always `(0, 0)`.
#[derive(Clone, Copy, Debug, PartialEq, Eq)]
pub struct OffsetUniform {
    pub offset: (i64, i64),
    pub memory_alignment_offset: (i64, i64),
}

impl OffsetUniform {
    pub open spec fn wf(self) -> bool {
        &&& 0 <= self.offset.0 <= MAX_OFFSET
        &&& 0 <= self.offset.1 <= MAX_OFFSET
        &&& self.memory_alignment_offset == (0i64, 0i64)
    }

    /// A fresh uniform: zero offset, zero padding.
    pub fn new() -> (r: OffsetUniform)
        ensures
            r == (OffsetUniform { offset: (0i64, 0i64), memory_alignment_offset: (0i64, 0i64) }),
            r.wf(),
    {
        OffsetUniform { offset: (0, 0), memory_alignment_offset: (0, 0) }
    }

    /// Recompute the offset from the sines of the two freshly advanced
    /// phases, handed in by the caller in fixed-point units. The padding
    /// pair stays `(0, 0)`.
    pub fn update_offset(&mut self, sin_x: i64, sin_y: i64)
        requires
            old(self).wf(),
            -UNIT_SCALE <= sin_x <= UNIT_SCALE,
            -UNIT_SCALE <= sin_y <= UNIT_SCALE,
        ensures
            final(self).wf(),
            final(self).offset.0 == offset_of_sine(sin_x as int),
            final(self).offset.1 == offset_of_sine(sin_y as int),
            final(self).memory_alignment_offset == (0i64, 0i64),
    {
        proof {
            lemma_offset_of_sine_bounded(sin_x as int);
            lemma_offset_of_sine_bounded(sin_y as int);
        }
        self.offset.0 = (sin_x + UNIT_SCALE) / 100;
        self.offset.1 = (sin_y + UNIT_SCALE) / 100;
    }
}

/// Offset bound law: for every sine value in `[-1, 1]` the derived offset
/// lies in `[0, 0.02]` — in fixed-point terms, in `[0, MAX_OFFSET]`.
pub proof fn lemma_offset_of_sine_bounded(s: int)
    requires
        -UNIT_SCALE <= s <= UNIT_SCALE,
    ensures
        0 <= offset_of_sine(s) <= MAX_OFFSET,
{
    assert(0 <= (s + UNIT_SCALE) / 100 <= MAX_OFFSET) by (nonlinear_arith)
        requires
            0 <= s + UNIT_SCALE <= 2 * UNIT_SCALE,
    ;
}

} // verus!
