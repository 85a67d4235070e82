//! Caret mode: motion becomes taps of arrow keys.

use vstd::prelude::*;

use crate::event::HidKeyCode;
use crate::num;
use crate::pointing::accumulator::MotionAccumulator;
use crate::pointing::config::CaretConfig;

verus! {

/// Most taps that one sample can cause.
pub const MAX_CARET_TAPS: u8 = 255;

/// Running total of one axis after a sample; zero where the axis is disabled.
pub open spec fn caret_total(remainder: i16, delta: i16, disabled: bool) -> int {
    if disabled {
        0
    } else {
        num::clamp_i16(remainder + delta)
    }
}

/// Whether the totals of both axes exceed the threshold together.
pub open spec fn caret_fires(tx: int, ty: int, threshold: i16) -> bool {
    num::magnitude(tx) + num::magnitude(ty) > threshold
}

/// Number of taps for a dominant total: each tap spends one threshold, as long as
/// more than a threshold is left. A threshold that is not positive never runs
/// down and is cut off at the limit.
pub open spec fn caret_tap_count(total: int, threshold: i16) -> int {
    if threshold <= 0 {
        MAX_CARET_TAPS as int
    } else {
        let taps = (num::magnitude(total) - 1) / (threshold as int);
        num::clamp(taps, 1, MAX_CARET_TAPS as int)
    }
}

/// Dominant total after `taps` taps, each of which moves it by one threshold
/// against its direction, limited to the range of `i16`. A total of zero counts
/// as negative.
pub open spec fn caret_spent(total: int, taps: int, threshold: i16) -> int {
    if total > 0 {
        num::clamp_i16(total - taps * threshold)
    } else {
        num::clamp_i16(total + taps * threshold)
    }
}

/// Key for motion along the dominant axis.
pub open spec fn caret_key(tx: int, ty: int, cfg: CaretConfig) -> HidKeyCode {
    if caret_x_dominates(tx, ty) {
        if (tx > 0) != cfg.invert_x {
            cfg.keycode_right
        } else {
            cfg.keycode_left
        }
    } else {
        if (ty > 0) != cfg.invert_y {
            cfg.keycode_down
        } else {
            cfg.keycode_up
        }
    }
}

/// Whether X is the dominant axis; ties go to X.
pub open spec fn caret_x_dominates(tx: int, ty: int) -> bool {
    num::magnitude(tx) >= num::magnitude(ty)
}

/// Whether the totals stay within `i16` arithmetic while they are turned into
/// taps. This only rules out totals near the ends of `i16` and, for a negative
/// threshold, totals that would grow past its lower end.
pub open spec fn caret_in_range(tx: int, ty: int, cfg: CaretConfig) -> bool {
    &&& num::magnitude(tx) + num::magnitude(ty) <= 32767
    &&& cfg.threshold < 0 ==> if caret_x_dominates(tx, ty) {
        cfg.disable_x || caret_growth_in_range(tx, cfg.threshold)
    } else {
        caret_growth_in_range(ty, cfg.threshold)
    }
}

/// Whether a dominant total that a negative threshold makes grow stays in range.
pub open spec fn caret_growth_in_range(total: int, threshold: i16) -> bool {
    &&& threshold > -32768
    &&& total <= 0 ==> num::magnitude(total) + 254 * (-threshold) <= 32767
}

/// Whether the sample `(x, y)` can be handled, see [`caret_in_range`].
pub open spec fn caret_accepts(x: i16, y: i16, acc: MotionAccumulator, cfg: CaretConfig) -> bool {
    caret_in_range(
        caret_total(acc.remainder_x, x, cfg.disable_x),
        caret_total(acc.remainder_y, y, cfg.disable_y),
        cfg,
    )
}

/// Taps that the sample `(x, y)` fires, and the totals that are left.
pub open spec fn caret_step(x: i16, y: i16, acc: MotionAccumulator, cfg: CaretConfig) -> (
    Option<(HidKeyCode, u8)>,
    MotionAccumulator,
) {
    let tx = caret_total(acc.remainder_x, x, cfg.disable_x);
    let ty = caret_total(acc.remainder_y, y, cfg.disable_y);
    if !caret_fires(tx, ty, cfg.threshold) {
        (None, MotionAccumulator { remainder_x: tx as i16, remainder_y: ty as i16 })
    } else if caret_x_dominates(tx, ty) {
        let count = caret_tap_count(tx, cfg.threshold);
        let left = if cfg.disable_x {
            0
        } else {
            caret_spent(tx, count, cfg.threshold)
        };
        (
            Some((caret_key(tx, ty, cfg), count as u8)),
            MotionAccumulator { remainder_x: left as i16, remainder_y: 0 },
        )
    } else {
        let count = caret_tap_count(ty, cfg.threshold);
        let left = caret_spent(ty, count, cfg.threshold);
        (
            Some((caret_key(tx, ty, cfg), count as u8)),
            MotionAccumulator { remainder_x: 0, remainder_y: left as i16 },
        )
    }
}

/// Steps of `t` that lead from `a` into `1..=t`, or more than `n` such steps.
proof fn lemma_whole_steps(a: int, t: int, n: int)
    requires
        t > 0,
        a - n * t > 0,
    ensures
        (a - 1) / t >= n,
        a - n * t <= t ==> (a - 1) / t == n,
{
    assert((a - 1) / t >= n) by (nonlinear_arith)
        requires
            t > 0,
            a - n * t > 0,
    ;
    if a - n * t <= t {
        assert((a - 1) / t == n) by (nonlinear_arith)
            requires
                t > 0,
                a - n * t > 0,
                a - n * t <= t,
        ;
    }
}

/// Taps of the dominant total, one after the other.
///
/// Returns the number of taps and what is left of the total.
fn spend_dominant(total: i16, other: i16, threshold: i16) -> (r: (u8, i16))
    requires
        num::magnitude(other as int) <= num::magnitude(total as int),
        caret_fires(total as int, other as int, threshold),
        num::magnitude(total as int) + num::magnitude(other as int) <= 32767,
        threshold < 0 ==> caret_growth_in_range(total as int, threshold),
    ensures
        r.0 == caret_tap_count(total as int, threshold),
        r.1 == caret_spent(total as int, r.0 as int, threshold),
{
    let ghost t = threshold as int;
    let ghost a = num::magnitude(total as int);
    // The first tap falls due because of both axes; from the second on only the
    // dominant axis is left.
    let step: i16 = if total > 0 {
        -threshold
    } else {
        threshold
    };
    let mut left: i16 = num::sat_add_i16(total, step);
    let mut count: u8 = 1;
    assert(1 * t == t);
    while count < MAX_CARET_TAPS && num::abs_i16(left) > threshold
        invariant
            1 <= count <= MAX_CARET_TAPS,
            t == threshold,
            a == num::magnitude(total as int),
            a <= 32767,
            t == 0 ==> a > 0,
            t < 0 ==> {
                &&& t > -32768
                &&& total <= 0 ==> a + 254 * (-t) <= 32767
            },
            // The direction of the total is kept while taps are due.
            t > 0 && a <= t ==> count == 1 && num::magnitude(left as int) <= t,
            t > 0 && a > t ==> num::magnitude(left as int) == a - count * t && a - count * t > 0,
            t > 0 && a > t ==> (left > 0) == (total > 0),
            t <= 0 ==> (left > 0) == (total > 0),
            left == caret_spent(total as int, count as int, threshold),
            count < MAX_CARET_TAPS ==> left > -32768,
        decreases MAX_CARET_TAPS - count,
    {
        proof {
            assert((count + 1) * t == count * t + t) by (nonlinear_arith);
            assert(t <= 0 ==> count * t <= 0) by (nonlinear_arith)
                requires
                    1 <= count,
            ;
        }
        let step: i16 = if left > 0 {
            -threshold
        } else {
            threshold
        };
        left = num::sat_add_i16(left, step);
        count = count + 1;
        proof {
            assert(t <= 0 && count <= 254 ==> count * t >= 254 * t) by (nonlinear_arith)
                requires
                    1 <= count,
            ;
        }
    }
    proof {
        if t > 0 && a > t {
            lemma_whole_steps(a, t, count as int);
        } else if t > 0 {
            assert((a - 1) / t <= 0) by (nonlinear_arith)
                requires
                    a <= t,
                    t > 0,
            ;
        }
    }
    (count, left)
}

/// Whether a dominant total that a negative threshold makes grow stays in range.
fn growth_in_range(total: i32, threshold: i16) -> (ok: bool)
    requires
        -32768 <= total <= 32767,
    ensures
        ok == caret_growth_in_range(total as int, threshold),
{
    threshold > -32768 && (total > 0 || -total + 254 * (-(threshold as i32)) <= 32767)
}

/// Whether [`compute_caret_taps`] can handle the sample `(x, y)`.
pub fn can_compute_caret_taps(x: i16, y: i16, accumulator: &MotionAccumulator, cfg: &CaretConfig) -> (ok: bool)
    ensures
        ok == caret_accepts(x, y, *accumulator, *cfg),
{
    let tx: i32 = if cfg.disable_x {
        0
    } else {
        num::sat_add_i16(accumulator.remainder_x, x) as i32
    };
    let ty: i32 = if cfg.disable_y {
        0
    } else {
        num::sat_add_i16(accumulator.remainder_y, y) as i32
    };
    let size_x: i32 = num::abs_i32(tx);
    let size_y: i32 = num::abs_i32(ty);
    if size_x + size_y > 32767 {
        return false;
    }
    if cfg.threshold >= 0 {
        true
    } else if size_x >= size_y {
        cfg.disable_x || growth_in_range(tx, cfg.threshold)
    } else {
        growth_in_range(ty, cfg.threshold)
    }
}

/// Given an `(x, y)` motion delta, decide whether caret mode should fire key taps.
///
/// The accumulator keeps the running total of each axis. Once both totals together
/// exceed the threshold, the dominant axis chooses the key, each tap spends one
/// threshold of it, and the other axis is dropped so that stale samples cannot
/// bleed in. Returns `(keycode, count)` if a tap should fire, `None` otherwise.
pub fn compute_caret_taps(x: i16, y: i16, accumulator: &mut MotionAccumulator, cfg: &CaretConfig) -> (taps: Option<
    (HidKeyCode, u8),
>)
    requires
        caret_accepts(x, y, *old(accumulator), *cfg),
    ensures
        (taps, *final(accumulator)) == caret_step(x, y, *old(accumulator), *cfg),
{
    let divisor_x: u8 = if cfg.disable_x {
        0
    } else {
        1
    };
    let divisor_y: u8 = if cfg.disable_y {
        0
    } else {
        1
    };
    let (dx, dy): (i16, i16) = accumulator.accumulate_persistent(x, y, (1, divisor_x), (1, divisor_y));
    let ghost tx = caret_total(old(accumulator).remainder_x, x, cfg.disable_x);
    let ghost ty = caret_total(old(accumulator).remainder_y, y, cfg.disable_y);
    proof {
        assert(x * 1u8 == x && y * 1u8 == y);
        assert(dx == tx && dy == ty);
    }
    let size_x: i16 = num::abs_i16(dx);
    let size_y: i16 = num::abs_i16(dy);
    if size_x + size_y <= cfg.threshold {
        return None;
    }
    if size_x >= size_y {
        let keycode = if (dx > 0) != cfg.invert_x {
            cfg.keycode_right
        } else {
            cfg.keycode_left
        };
        accumulator.reset_y();
        if cfg.disable_x {
            return Some((keycode, MAX_CARET_TAPS));
        }
        let (count, left): (u8, i16) = spend_dominant(dx, dy, cfg.threshold);
        accumulator.remainder_x = left;
        Some((keycode, count))
    } else {
        let keycode = if (dy > 0) != cfg.invert_y {
            cfg.keycode_down
        } else {
            cfg.keycode_up
        };
        accumulator.reset_x();
        let (count, left): (u8, i16) = spend_dominant(dy, dx, cfg.threshold);
        accumulator.remainder_y = left;
        Some((keycode, count))
    }
}

/// Taps spend the motion that they stand for: with a positive threshold, the taps
/// times the threshold and what is left of the dominant total add up to the total
/// in its direction, and at most one threshold is left unless the tap limit was
/// reached.
pub proof fn law_taps_spend_the_dominant_total(total: int, other: int, threshold: i16)
    requires
        threshold > 0,
        num::magnitude(other) <= num::magnitude(total) <= 32767,
        caret_fires(total, other, threshold),
    ensures
        ({
            let count = caret_tap_count(total, threshold);
            let left = caret_spent(total, count, threshold);
            &&& 1 <= count <= MAX_CARET_TAPS
            &&& total > 0 ==> left + count * threshold == total
            &&& total < 0 ==> left - count * threshold == total
            &&& count < MAX_CARET_TAPS ==> num::magnitude(left) <= threshold
        }),
{
    let a = num::magnitude(total);
    let t = threshold as int;
    let count = caret_tap_count(total, threshold);
    let taps = (a - 1) / t;
    assert(taps * t <= a - 1 < taps * t + t) by (nonlinear_arith)
        requires
            taps == (a - 1) / t,
            t > 0,
            a >= 1,
    ;
    assert(1 * t == t);
    if taps < 1 {
        assert(taps * t <= 0) by (nonlinear_arith)
            requires
                taps < 1,
                t > 0,
        ;
    } else if taps > 255 {
        assert(255 * t <= taps * t) by (nonlinear_arith)
            requires
                taps > 255,
                t > 0,
        ;
    }
}

/// A sample that does not lift the totals over the threshold fires nothing and
/// loses nothing: the next sample meets the same totals.
pub proof fn law_quiet_samples_accumulate(remainder: i16, first: i16, second: i16)
    requires
        num::fits_i16(remainder + first),
    ensures
        caret_total(caret_total(remainder, first, false) as i16, second, false) == num::clamp_i16(
            remainder + first + second,
        ),
{
}

} // verus!
