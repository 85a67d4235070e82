//! Scaling of motion by a ratio, with the fraction carried over.

use vstd::prelude::*;

use crate::num;

verus! {

/// Accumulator for sub-unit motion deltas (used in scroll and sniper modes).
///
/// When motion is divided by a divisor, small movements would be lost. The
/// accumulator keeps track of the remainder so that sub-unit deltas accumulate
/// until they produce a non-zero output.
#[derive(Clone, Copy, Debug)]
pub struct MotionAccumulator {
    pub remainder_x: i16,
    pub remainder_y: i16,
}

/// Whether a delta can be scaled by `ratio = (multiplier, divisor)`: the scaled
/// delta of an axis that is in use is a value of `i16`.
pub open spec fn scalable(delta: i16, ratio: (u8, u8)) -> bool {
    ratio.1 != 0 ==> num::fits_i16(delta * ratio.0)
}

/// Carried remainder plus the scaled delta, limited to the range of `i16`.
pub open spec fn axis_total(remainder: i16, delta: i16, ratio: (u8, u8)) -> int {
    num::clamp_i16(remainder + delta * ratio.0)
}

/// Output of one axis. A divisor of zero disables the axis.
pub open spec fn axis_output(remainder: i16, delta: i16, ratio: (u8, u8)) -> int {
    if ratio.1 == 0 {
        0
    } else {
        num::trunc_div(axis_total(remainder, delta, ratio), ratio.1 as int)
    }
}

/// What one axis carries over when its output is subtracted.
pub open spec fn axis_carry(remainder: i16, delta: i16, ratio: (u8, u8)) -> int {
    if ratio.1 == 0 {
        0
    } else {
        axis_total(remainder, delta, ratio) - axis_output(remainder, delta, ratio) * ratio.1
    }
}

/// What one axis carries over when its output is not subtracted.
pub open spec fn axis_running_total(remainder: i16, delta: i16, ratio: (u8, u8)) -> int {
    if ratio.1 == 0 {
        0
    } else {
        axis_total(remainder, delta, ratio)
    }
}

impl Default for MotionAccumulator {
    fn default() -> (acc: Self)
        ensures
            acc.remainder_x == 0,
            acc.remainder_y == 0,
    {
        MotionAccumulator { remainder_x: 0, remainder_y: 0 }
    }
}

/// Whether `out` and `after` are what a motion leads to whose output is subtracted.
pub open spec fn accumulates(
    acc: MotionAccumulator,
    motion: (i16, i16),
    ratios: ((u8, u8), (u8, u8)),
    out: (i16, i16),
    after: MotionAccumulator,
) -> bool {
    &&& out.0 == axis_output(acc.remainder_x, motion.0, ratios.0)
    &&& out.1 == axis_output(acc.remainder_y, motion.1, ratios.1)
    &&& after.remainder_x == axis_carry(acc.remainder_x, motion.0, ratios.0)
    &&& after.remainder_y == axis_carry(acc.remainder_y, motion.1, ratios.1)
}

/// Whether `out` and `after` are what a motion leads to whose output is not subtracted.
pub open spec fn keeps_totals(
    acc: MotionAccumulator,
    motion: (i16, i16),
    ratios: ((u8, u8), (u8, u8)),
    out: (i16, i16),
    after: MotionAccumulator,
) -> bool {
    &&& out.0 == axis_output(acc.remainder_x, motion.0, ratios.0)
    &&& out.1 == axis_output(acc.remainder_y, motion.1, ratios.1)
    &&& after.remainder_x == axis_running_total(acc.remainder_x, motion.0, ratios.0)
    &&& after.remainder_y == axis_running_total(acc.remainder_y, motion.1, ratios.1)
}

/// Total and output of one axis that is in use.
fn divide_axis(remainder: i16, delta: i16, ratio: (u8, u8)) -> (r: (i16, i16))
    requires
        ratio.1 != 0,
        scalable(delta, ratio),
    ensures
        r.0 == axis_total(remainder, delta, ratio),
        r.1 == axis_output(remainder, delta, ratio),
        num::fits_i16(r.1 * ratio.1),
        num::fits_i16(r.0 - r.1 * ratio.1),
{
    let multiplier: i16 = ratio.0 as i16;
    let divisor: i16 = ratio.1 as i16;
    let scaled: i16 = delta * multiplier;
    let total: i16 = num::sat_add_i16(remainder, scaled);
    let out: i16 = total / divisor;
    proof {
        num::lemma_trunc_div(total as int, divisor as int);
    }
    (total, out)
}

impl MotionAccumulator {
    /// Reset accumulator (call when mode changes)
    pub fn reset(&mut self)
        ensures
            final(self).remainder_x == 0,
            final(self).remainder_y == 0,
    {
        self.reset_x();
        self.reset_y();
    }

    /// Reset x axis remainder of accumulator
    pub fn reset_x(&mut self)
        ensures
            final(self).remainder_x == 0,
            final(self).remainder_y == old(self).remainder_y,
    {
        self.remainder_x = 0;
    }

    /// Reset y axis remainder of accumulator
    pub fn reset_y(&mut self)
        ensures
            final(self).remainder_x == old(self).remainder_x,
            final(self).remainder_y == 0,
    {
        self.remainder_y = 0;
    }

    /// Accumulate motion and return the divided output, keeping the remainder.
    /// A divisor of 0 disables that axis (always outputs 0).
    pub fn accumulate(&mut self, dx: i16, dy: i16, ratio_x: (u8, u8), ratio_y: (u8, u8)) -> (out: (i16, i16))
        requires
            scalable(dx, ratio_x),
            scalable(dy, ratio_y),
        ensures
            accumulates(*old(self), (dx, dy), (ratio_x, ratio_y), out, *final(self)),
    {
        let out_x: i16 = if ratio_x.1 == 0 {
            self.remainder_x = 0;
            0
        } else {
            let (total, out): (i16, i16) = divide_axis(self.remainder_x, dx, ratio_x);
            self.remainder_x = total - out * ratio_x.1 as i16;
            out
        };
        let out_y: i16 = if ratio_y.1 == 0 {
            self.remainder_y = 0;
            0
        } else {
            let (total, out): (i16, i16) = divide_axis(self.remainder_y, dy, ratio_y);
            self.remainder_y = total - out * ratio_y.1 as i16;
            out
        };
        (out_x, out_y)
    }

    /// Accumulate motion and return the divided output, keeping the whole total:
    /// the output is not subtracted from the remainder.
    pub fn accumulate_persistent(&mut self, dx: i16, dy: i16, ratio_x: (u8, u8), ratio_y: (u8, u8)) -> (out: (
        i16,
        i16,
    ))
        requires
            scalable(dx, ratio_x),
            scalable(dy, ratio_y),
        ensures
            keeps_totals(*old(self), (dx, dy), (ratio_x, ratio_y), out, *final(self)),
    {
        let out_x: i16 = if ratio_x.1 == 0 {
            self.remainder_x = 0;
            0
        } else {
            let (total, out): (i16, i16) = divide_axis(self.remainder_x, dx, ratio_x);
            self.remainder_x = total;
            out
        };
        let out_y: i16 = if ratio_y.1 == 0 {
            self.remainder_y = 0;
            0
        } else {
            let (total, out): (i16, i16) = divide_axis(self.remainder_y, dy, ratio_y);
            self.remainder_y = total;
            out
        };
        (out_x, out_y)
    }
}

/// Sum of `deltas`.
pub open spec fn sum_of(deltas: Seq<i16>) -> int
    decreases deltas.len(),
{
    if deltas.len() == 0 {
        0
    } else {
        sum_of(deltas.drop_last()) + deltas.last()
    }
}

/// What one axis carries after `deltas` were accumulated one by one.
pub open spec fn carry_after(remainder: i16, deltas: Seq<i16>, ratio: (u8, u8)) -> i16
    decreases deltas.len(),
{
    if deltas.len() == 0 {
        remainder
    } else {
        axis_carry(carry_after(remainder, deltas.drop_last(), ratio), deltas.last(), ratio) as i16
    }
}

/// Sum of the outputs of one axis while `deltas` are accumulated one by one.
pub open spec fn output_sum(remainder: i16, deltas: Seq<i16>, ratio: (u8, u8)) -> int
    decreases deltas.len(),
{
    if deltas.len() == 0 {
        0
    } else {
        output_sum(remainder, deltas.drop_last(), ratio) + axis_output(
            carry_after(remainder, deltas.drop_last(), ratio),
            deltas.last(),
            ratio,
        )
    }
}

/// The remainder that an axis in use carries over is smaller than its divisor and
/// never points against the total that it comes from.
pub proof fn law_carry_is_a_fraction(remainder: i16, delta: i16, ratio: (u8, u8))
    requires
        ratio.1 != 0,
    ensures
        num::magnitude(axis_carry(remainder, delta, ratio)) < ratio.1,
        axis_total(remainder, delta, ratio) >= 0 ==> axis_carry(remainder, delta, ratio) >= 0,
        axis_total(remainder, delta, ratio) <= 0 ==> axis_carry(remainder, delta, ratio) <= 0,
{
    num::lemma_trunc_div(axis_total(remainder, delta, ratio), ratio.1 as int);
}

/// No motion is lost: however motion is cut into deltas, the outputs times the
/// divisor plus what is carried equal the scaled motion plus what was carried at the
/// start, as long as no total leaves the range of the accumulator. After any delta only
/// a fraction is carried.
pub proof fn law_no_motion_is_lost(remainder: i16, deltas: Seq<i16>, ratio: (u8, u8))
    requires
        ratio.1 != 0,
        forall|i: int|
            0 <= i < deltas.len() ==> num::fits_i16(
                carry_after(remainder, deltas.take(i), ratio) + #[trigger] deltas[i] * ratio.0,
            ),
    ensures
        output_sum(remainder, deltas, ratio) * ratio.1 + carry_after(remainder, deltas, ratio) == sum_of(deltas)
            * ratio.0 + remainder,
        deltas.len() > 0 ==> num::magnitude(carry_after(remainder, deltas, ratio) as int) < ratio.1,
    decreases deltas.len(),
{
    let m = ratio.0 as int;
    let d = ratio.1 as int;
    if deltas.len() == 0 {
        assert(0 * d == 0 && 0 * m == 0);
    } else {
        let init = deltas.drop_last();
        let last = deltas.last();
        assert(init =~= deltas.take(deltas.len() - 1));
        assert(last == deltas[deltas.len() - 1]);
        assert forall|i: int| 0 <= i < init.len() implies num::fits_i16(
            carry_after(remainder, init.take(i), ratio) + #[trigger] init[i] * ratio.0,
        ) by {
            assert(init[i] == deltas[i]);
            assert(init.take(i) =~= deltas.take(i));
        }
        law_no_motion_is_lost(remainder, init, ratio);
        let carried = carry_after(remainder, init, ratio);
        let out = axis_output(carried, last, ratio);
        law_carry_is_a_fraction(carried, last, ratio);
        assert(axis_total(carried, last, ratio) == carried + last * m);
        let s = output_sum(remainder, init, ratio);
        assert((s + out) * d == s * d + out * d) by (nonlinear_arith);
        assert((sum_of(init) + last) * m == sum_of(init) * m + last * m) by (nonlinear_arith);
    }
}

/// A persistent accumulation keeps the exact running total of the scaled deltas while
/// it stays within the range of `i16`, and an axis without movement keeps its total.
pub proof fn law_persistent_total_is_exact(remainder: i16, delta: i16, ratio: (u8, u8))
    requires
        ratio.1 != 0,
        num::fits_i16(remainder + delta * ratio.0),
    ensures
        axis_running_total(remainder, delta, ratio) == remainder + delta * ratio.0,
        axis_running_total(remainder, 0, ratio) == remainder,
{
    assert(0 * ratio.0 == 0);
}

/// Total of an axis that carries `carried` and moves by `moved`, limited to 16 bits.
pub open spec fn total_of(carried: i16, moved: i16, multiplier: u8) -> int {
    let sum = carried + moved * multiplier;
    if sum > 32767 {
        32767
    } else if sum < -32768 {
        -32768
    } else {
        sum
    }
}

/// Each axis is scaled by itself: what it carries and its motion times the multiplier are
/// divided by the divisor, the whole part is the output, and the rest is carried on. A
/// divisor of zero puts out nothing and carries nothing.
pub proof fn law_each_axis_is_scaled_by_itself(
    acc: MotionAccumulator,
    motion: (i16, i16),
    ratios: ((u8, u8), (u8, u8)),
    out: (i16, i16),
    after: MotionAccumulator,
)
    requires
        accumulates(acc, motion, ratios, out, after),
    ensures
        ratios.0.1 == 0 ==> out.0 == 0 && after.remainder_x == 0,
        ratios.1.1 == 0 ==> out.1 == 0 && after.remainder_y == 0,
        ratios.0.1 != 0 ==> {
            let total = total_of(acc.remainder_x, motion.0, ratios.0.0);
            &&& total >= 0 ==> out.0 * ratios.0.1 <= total < out.0 * ratios.0.1 + ratios.0.1
            &&& total <= 0 ==> out.0 * ratios.0.1 - ratios.0.1 < total <= out.0 * ratios.0.1
            &&& after.remainder_x == total - out.0 * ratios.0.1
        },
        ratios.1.1 != 0 ==> {
            let total = total_of(acc.remainder_y, motion.1, ratios.1.0);
            &&& total >= 0 ==> out.1 * ratios.1.1 <= total < out.1 * ratios.1.1 + ratios.1.1
            &&& total <= 0 ==> out.1 * ratios.1.1 - ratios.1.1 < total <= out.1 * ratios.1.1
            &&& after.remainder_y == total - out.1 * ratios.1.1
        },
{
    if ratios.0.1 != 0 {
        num::lemma_trunc_div(axis_total(acc.remainder_x, motion.0, ratios.0), ratios.0.1 as int);
    }
    if ratios.1.1 != 0 {
        num::lemma_trunc_div(axis_total(acc.remainder_y, motion.1, ratios.1), ratios.1.1 as int);
    }
}

/// A persistent accumulation puts out the same for each axis, and carries its whole total
/// on.
pub proof fn law_each_axis_keeps_its_total(
    acc: MotionAccumulator,
    motion: (i16, i16),
    ratios: ((u8, u8), (u8, u8)),
    out: (i16, i16),
    after: MotionAccumulator,
)
    requires
        keeps_totals(acc, motion, ratios, out, after),
    ensures
        ratios.0.1 == 0 ==> out.0 == 0 && after.remainder_x == 0,
        ratios.1.1 == 0 ==> out.1 == 0 && after.remainder_y == 0,
        ratios.0.1 != 0 ==> {
            let total = total_of(acc.remainder_x, motion.0, ratios.0.0);
            &&& total >= 0 ==> out.0 * ratios.0.1 <= total < out.0 * ratios.0.1 + ratios.0.1
            &&& total <= 0 ==> out.0 * ratios.0.1 - ratios.0.1 < total <= out.0 * ratios.0.1
            &&& after.remainder_x == total
        },
        ratios.1.1 != 0 ==> {
            let total = total_of(acc.remainder_y, motion.1, ratios.1.0);
            &&& total >= 0 ==> out.1 * ratios.1.1 <= total < out.1 * ratios.1.1 + ratios.1.1
            &&& total <= 0 ==> out.1 * ratios.1.1 - ratios.1.1 < total <= out.1 * ratios.1.1
            &&& after.remainder_y == total
        },
{
    if ratios.0.1 != 0 {
        num::lemma_trunc_div(axis_total(acc.remainder_x, motion.0, ratios.0), ratios.0.1 as int);
    }
    if ratios.1.1 != 0 {
        num::lemma_trunc_div(axis_total(acc.remainder_y, motion.1, ratios.1), ratios.1.1 as int);
    }
}

} // verus!
