//! Scroll animation for the water texture.
//!
//! Each frame the renderer advances two phase angles by `direction * speed`
//! and wraps them into `[0, tau)`, where `tau` is one full turn. Angles are
//! carried in fixed-point units of one ten-millionth of a radian, so the
//! wraparound arithmetic is exact and provable.

use vstd::prelude::*;
use vstd::arithmetic::div_mod::{
    lemma_add_mod_noop_right, lemma_mod_add_multiples_vanish, lemma_mod_bound,
    lemma_mod_sub_multiples_vanish, lemma_small_mod,
};

verus! {

/// One radian, in fixed-point angle units.
pub const UNIT_SCALE: i64 = 10_000_000;

/// One full turn (tau = 2*pi radians) in angle units, rounded down.
pub const TAU_UNITS: i64 = 62_831_853;

/// The scroll speed the renderer starts with: 0.02 radians per frame.
pub const INITIAL_SPEED: i64 = 200_000;

/// A phase `p` advanced by `step`, wrapped into `[0, TAU_UNITS)`.
/// `%` on `int` is Euclidean, so the result is non-negative even when the
/// step is negative and the sum dips below zero.
pub open spec fn wrap_phase(p: int) -> int {
    p % (TAU_UNITS as int)
}

/// One advance of a single phase component.
pub open spec fn stepped_phase(phase: int, dir: int, speed: int) -> int {
    wrap_phase(phase + dir * speed)
}

/// The phase reached after `n` advances from `phase0`.
pub open spec fn phase_after(n: nat, phase0: int, dir: int, speed: int) -> int
    decreases n,
{
    if n == 0 {
        phase0
    } else {
        stepped_phase(phase_after((n - 1) as nat, phase0, dir, speed), dir, speed)
    }
}

/// Speed, direction and the two accumulated phase angles of the water scroll.
///
/// `dir_x`/`dir_y` are sign factors in `{-1, 0, 1}`; the renderer uses
/// `(-1, -1)`. `x`/`y` are the phases, always in `[0, TAU_UNITS)`.
#[derive(Clone, Copy, Debug, PartialEq, Eq, Structural)]
pub struct WaterStats {
    pub speed: i64,
    pub dir_x: i64,
    pub dir_y: i64,
    pub x: i64,
    pub y: i64,
}

impl WaterStats {
    /// The state one advance leaves behind: both phases stepped and
    /// wrapped, speed and direction untouched.
    pub open spec fn advanced(self) -> WaterStats {
        WaterStats {
            x: stepped_phase(self.x as int, self.dir_x as int, self.speed as int) as i64,
            y: stepped_phase(self.y as int, self.dir_y as int, self.speed as int) as i64,
            ..self
        }
    }

    pub open spec fn wf(self) -> bool {
        &&& 0 <= self.speed < TAU_UNITS
        &&& -1 <= self.dir_x <= 1
        &&& -1 <= self.dir_y <= 1
        &&& 0 <= self.x < TAU_UNITS
        &&& 0 <= self.y < TAU_UNITS
    }

    /// Fresh animation state: both phases start at zero.
    pub fn new(speed: i64, dir_x: i64, dir_y: i64) -> (r: WaterStats)
        requires
            0 <= speed < TAU_UNITS,
            -1 <= dir_x <= 1,
            -1 <= dir_y <= 1,
        ensures
            r == (WaterStats { speed, dir_x, dir_y, x: 0, y: 0 }),
            r.wf(),
    {
        WaterStats { speed, dir_x, dir_y, x: 0, y: 0 }
    }

    /// Advance both phases by one frame: add `direction * speed`, then wrap
    /// into `[0, TAU_UNITS)`. Speed and direction are untouched.
    pub fn advance(&mut self)
        requires
            old(self).wf(),
        ensures
            final(self).wf(),
            final(self).x == stepped_phase(
                old(self).x as int,
                old(self).dir_x as int,
                old(self).speed as int,
            ),
            final(self).y == stepped_phase(
                old(self).y as int,
                old(self).dir_y as int,
                old(self).speed as int,
            ),
            final(self).speed == old(self).speed,
            final(self).dir_x == old(self).dir_x,
            final(self).dir_y == old(self).dir_y,
            *final(self) == old(self).advanced(),
    {
        let sx = step_amount(self.dir_x, self.speed);
        let sy = step_amount(self.dir_y, self.speed);
        self.x = wrap_add(self.x, sx);
        self.y = wrap_add(self.y, sy);
    }
}

/// `dir * speed`, shown to stay strictly inside `(-TAU_UNITS, TAU_UNITS)`.
fn step_amount(dir: i64, speed: i64) -> (r: i64)
    requires
        -1 <= dir <= 1,
        0 <= speed < TAU_UNITS,
    ensures
        r == dir * speed,
        -TAU_UNITS < r < TAU_UNITS,
{
    proof {
        assert(-speed <= dir * speed <= speed) by (nonlinear_arith)
            requires
                -1 <= dir <= 1,
                0 <= speed,
        ;
    }
    dir * speed
}

/// `phase + step`, wrapped into `[0, TAU_UNITS)` by one compare-and-correct,
/// which equals the Euclidean remainder because the sum stays within one
/// turn of the valid range.
fn wrap_add(phase: i64, step: i64) -> (r: i64)
    requires
        0 <= phase < TAU_UNITS,
        -TAU_UNITS < step < TAU_UNITS,
    ensures
        r == wrap_phase(phase + step),
        0 <= r < TAU_UNITS,
{
    let sum = phase + step;
    proof {
        lemma_wrap_in_range(sum as int);
    }
    if sum < 0 {
        sum + TAU_UNITS
    } else if sum >= TAU_UNITS {
        sum - TAU_UNITS
    } else {
        sum
    }
}

/// For a value within one turn of `[0, TAU_UNITS)`, the Euclidean remainder
/// is reached by at most one addition or subtraction of `TAU_UNITS`.
proof fn lemma_wrap_in_range(v: int)
    requires
        -(TAU_UNITS as int) < v < 2 * (TAU_UNITS as int),
    ensures
        wrap_phase(v) == if v < 0 {
            v + TAU_UNITS
        } else if v >= TAU_UNITS {
            v - TAU_UNITS
        } else {
            v
        },
{
    let m = TAU_UNITS as int;
    if v < 0 {
        lemma_mod_add_multiples_vanish(v, m);
        lemma_small_mod((v + m) as nat, m as nat);
        assert(v % m == (m + v) % m == (v + m) as nat % m as nat);
    } else if v >= m {
        lemma_mod_sub_multiples_vanish(v, m);
        lemma_small_mod((v - m) as nat, m as nat);
        assert(v % m == (-m + v) % m == (v - m) as nat % m as nat);
    } else {
        lemma_small_mod(v as nat, m as nat);
        assert(v % m == v as nat % m as nat);
    }
}

/// Phase wraparound law: after `n` advances with direction `dir` and speed
/// `speed`, the phase is congruent to `phase0 + n * dir * speed` modulo one
/// turn, and always lies in `[0, TAU_UNITS)`.
pub proof fn lemma_phase_wraparound(n: nat, phase0: int, dir: int, speed: int)
    requires
        0 <= phase0 < TAU_UNITS,
    ensures
        phase_after(n, phase0, dir, speed) == wrap_phase(phase0 + n * (dir * speed)),
        0 <= phase_after(n, phase0, dir, speed) < TAU_UNITS,
    decreases n,
{
    let m = TAU_UNITS as int;
    let ds = dir * speed;
    if n == 0 {
        lemma_small_mod(phase0 as nat, m as nat);
        assert(phase0 % m == phase0 as nat % m as nat);
    } else {
        let prev = (n - 1) as nat;
        lemma_phase_wraparound(prev, phase0, dir, speed);
        let a = phase0 + prev * ds;
        // phase_after(n, ..) == ((a % m) + ds) % m == (a + ds) % m
        lemma_add_mod_noop_right(ds, a, m);
        assert(prev * ds + ds == n * ds) by (nonlinear_arith)
            requires
                prev == n - 1,
        ;
        lemma_mod_bound(phase0 + n * ds, m);
    }
}

} // verus!
