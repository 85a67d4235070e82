//! Coalescing of relative mouse motion.

use vstd::prelude::*;

use crate::event::MouseReport;
use crate::num;

verus! {

/// A contiguous run of relative mouse motion that can be represented by one or more
/// fresh BLE reports instead of replaying every stale queued sample. Button
/// transitions, scroll/pan and direction changes remain ordering barriers and are
/// never folded into the accumulator.
#[derive(Clone, Copy, Debug, PartialEq, Eq, Structural)]
pub struct BleMouseMotion {
    pub buttons: u8,
    pub x: i32,
    pub y: i32,
}

/// Whether a report carries cursor motion and nothing else that moves.
pub open spec fn is_motion(report: MouseReport) -> bool {
    report.wheel == 0 && report.pan == 0 && (report.x != 0 || report.y != 0)
}

/// Whether two movements do not point in opposite directions.
pub open spec fn same_direction(a: int, b: int) -> bool {
    a == 0 || b == 0 || (a > 0) == (b > 0)
}

/// Whether a report can join a run of motion.
pub open spec fn joins(m: BleMouseMotion, report: MouseReport) -> bool {
    &&& report.buttons == m.buttons
    &&& is_motion(report)
    &&& same_direction(m.x as int, report.x as int)
    &&& same_direction(m.y as int, report.y as int)
}

/// A run of motion with a report added.
pub open spec fn joined(m: BleMouseMotion, report: MouseReport) -> BleMouseMotion {
    BleMouseMotion {
        buttons: m.buttons,
        x: num::clamp_i32(m.x + report.x) as i32,
        y: num::clamp_i32(m.y + report.y) as i32,
    }
}

/// First report of what is left of a run.
pub open spec fn head_report(m: BleMouseMotion) -> MouseReport {
    MouseReport {
        buttons: m.buttons,
        x: num::clamp_i8(m.x as int) as i8,
        y: num::clamp_i8(m.y as int) as i8,
        wheel: 0,
        pan: 0,
    }
}

/// What is left of a run after its first report.
pub open spec fn after_head(m: BleMouseMotion) -> BleMouseMotion {
    BleMouseMotion {
        buttons: m.buttons,
        x: (m.x - num::clamp_i8(m.x as int)) as i32,
        y: (m.y - num::clamp_i8(m.y as int)) as i32,
    }
}

/// Whether nothing is left of a run.
pub open spec fn is_spent(m: BleMouseMotion) -> bool {
    m.x == 0 && m.y == 0
}

/// Whether two movements do not point in opposite directions.
pub fn same_motion_direction(accumulated: i32, next: i32) -> (same: bool)
    ensures
        same == same_direction(accumulated as int, next as int),
{
    accumulated == 0 || next == 0 || (accumulated > 0) == (next > 0)
}

impl BleMouseMotion {
    /// Starts a run with a report; `None` where the report is no plain motion.
    pub fn new(report: &MouseReport) -> (motion: Option<Self>)
        ensures
            motion == (if is_motion(*report) {
                Some(BleMouseMotion { buttons: report.buttons, x: report.x as i32, y: report.y as i32 })
            } else {
                None
            }),
    {
        if report.wheel != 0 || report.pan != 0 || (report.x == 0 && report.y == 0) {
            return None;
        }
        Some(BleMouseMotion { buttons: report.buttons, x: report.x as i32, y: report.y as i32 })
    }

    /// Adds a report to the run, if it can join. Returns whether it did.
    pub fn try_merge(&mut self, report: &MouseReport) -> (merged: bool)
        ensures
            merged == joins(*old(self), *report),
            *final(self) == (if merged {
                joined(*old(self), *report)
            } else {
                *old(self)
            }),
    {
        if report.buttons != self.buttons || report.wheel != 0 || report.pan != 0 || (report.x == 0 && report.y == 0)
            || !same_motion_direction(self.x, report.x as i32) || !same_motion_direction(self.y, report.y as i32) {
            return false;
        }
        self.x = num::sat_add_i32(self.x, report.x as i32);
        self.y = num::sat_add_i32(self.y, report.y as i32);
        true
    }

    /// Takes the next report of the run; `None` when nothing is left.
    pub fn next_report(&mut self) -> (report: Option<MouseReport>)
        ensures
            report == (if is_spent(*old(self)) {
                None
            } else {
                Some(head_report(*old(self)))
            }),
            *final(self) == (if is_spent(*old(self)) {
                *old(self)
            } else {
                after_head(*old(self))
            }),
    {
        if self.x == 0 && self.y == 0 {
            return None;
        }
        let x: i8 = num::narrow_i32_to_i8(self.x);
        let y: i8 = num::narrow_i32_to_i8(self.y);
        self.x = self.x - x as i32;
        self.y = self.y - y as i32;
        Some(MouseReport { buttons: self.buttons, x, y, wheel: 0, pan: 0 })
    }
}

/// All reports of a run.
pub open spec fn reports_of(m: BleMouseMotion) -> Seq<MouseReport>
    decreases num::magnitude(m.x as int) + num::magnitude(m.y as int),
{
    if is_spent(m) {
        Seq::empty()
    } else {
        seq![head_report(m)] + reports_of(after_head(m))
    }
}

/// Sum of the horizontal motion of `reports`.
pub open spec fn total_x(reports: Seq<MouseReport>) -> int
    decreases reports.len(),
{
    if reports.len() == 0 {
        0
    } else {
        reports.first().x + total_x(reports.drop_first())
    }
}

/// Sum of the vertical motion of `reports`.
pub open spec fn total_y(reports: Seq<MouseReport>) -> int
    decreases reports.len(),
{
    if reports.len() == 0 {
        0
    } else {
        reports.first().y + total_y(reports.drop_first())
    }
}

/// The reports of a run add up to its motion, and each of them is plain motion with
/// the buttons of the run.
pub proof fn law_reports_preserve_total(m: BleMouseMotion)
    ensures
        total_x(reports_of(m)) == m.x,
        total_y(reports_of(m)) == m.y,
        forall|i: int|
            0 <= i < reports_of(m).len() ==> (#[trigger] reports_of(m)[i]).buttons == m.buttons && is_motion(
                reports_of(m)[i],
            ),
    decreases num::magnitude(m.x as int) + num::magnitude(m.y as int),
{
    if !is_spent(m) {
        let rest = after_head(m);
        law_reports_preserve_total(rest);
        let all = reports_of(m);
        assert(all == seq![head_report(m)] + reports_of(rest));
        assert(all.drop_first() =~= reports_of(rest));
        assert(all.first() == head_report(m));
        assert forall|i: int| 0 <= i < all.len() implies (#[trigger] all[i]).buttons == m.buttons && is_motion(
            all[i],
        ) by {
            if i > 0 {
                assert(all[i] == reports_of(rest)[i - 1]);
            }
        }
    }
}

/// A run with `reports` added one by one.
pub open spec fn run_after(m: BleMouseMotion, reports: Seq<MouseReport>) -> BleMouseMotion
    decreases reports.len(),
{
    if reports.len() == 0 {
        m
    } else {
        run_after(joined(m, reports.first()), reports.drop_first())
    }
}

/// Coalescing preserves the total: while no partial sum leaves the range of `i32`, a run
/// sends exactly the motion that came in.
pub proof fn law_coalescing_preserves_total(m: BleMouseMotion, reports: Seq<MouseReport>)
    requires
        forall|n: int|
            0 <= n <= reports.len() ==> num::fits_i32(m.x + total_x(#[trigger] reports.take(n))) && num::fits_i32(
                m.y + total_y(reports.take(n)),
            ),
    ensures
        total_x(reports_of(run_after(m, reports))) == m.x + total_x(reports),
        total_y(reports_of(run_after(m, reports))) == m.y + total_y(reports),
    decreases reports.len(),
{
    if reports.len() == 0 {
        law_reports_preserve_total(m);
    } else {
        let first = reports.first();
        let rest = reports.drop_first();
        assert(reports.take(1).drop_first() =~= Seq::empty());
        assert(total_x(reports.take(1)) == first.x + total_x(Seq::empty()));
        assert(total_y(reports.take(1)) == first.y + total_y(Seq::empty()));
        assert(num::fits_i32(m.x + total_x(reports.take(1))));
        let m1 = joined(m, first);
        assert forall|n: int| 0 <= n <= rest.len() implies num::fits_i32(m1.x + total_x(#[trigger] rest.take(n)))
            && num::fits_i32(m1.y + total_y(rest.take(n))) by {
            assert(reports.take(n + 1).drop_first() =~= rest.take(n));
            assert(num::fits_i32(m.x + total_x(reports.take(n + 1))));
        }
        law_coalescing_preserves_total(m1, rest);
    }
}

/// A report that joins never turns a run around: each axis keeps its direction, and a
/// run that moves goes on moving.
pub proof fn law_joining_keeps_direction(m: BleMouseMotion, report: MouseReport)
    requires
        joins(m, report),
    ensures
        m.x != 0 ==> (joined(m, report).x > 0) == (m.x > 0) && joined(m, report).x != 0,
        m.y != 0 ==> (joined(m, report).y > 0) == (m.y > 0) && joined(m, report).y != 0,
        !is_spent(joined(m, report)),
{
}

/// A report joins a run if and only if it holds the same buttons, moves, does not scroll,
/// and moves against the run along neither axis; the run then moves by both together.
pub proof fn law_runs_hold_one_kind_of_motion(m: BleMouseMotion, report: MouseReport)
    ensures
        joins(m, report) <==> {
            &&& report.buttons == m.buttons
            &&& report.wheel == 0 && report.pan == 0
            &&& report.x != 0 || report.y != 0
            &&& m.x * report.x >= 0
            &&& m.y * report.y >= 0
        },
        joined(m, report).buttons == m.buttons,
        -0x8000_0000 <= m.x + report.x <= 0x7fff_ffff ==> joined(m, report).x == m.x + report.x,
        -0x8000_0000 <= m.y + report.y <= 0x7fff_ffff ==> joined(m, report).y == m.y + report.y,
        m.x + report.x > 0x7fff_ffff ==> joined(m, report).x == 0x7fff_ffff,
        m.y + report.y > 0x7fff_ffff ==> joined(m, report).y == 0x7fff_ffff,
        m.x + report.x < -0x8000_0000 ==> joined(m, report).x == -0x8000_0000,
        m.y + report.y < -0x8000_0000 ==> joined(m, report).y == -0x8000_0000,
{
    lemma_direction(m.x as int, report.x as int);
    lemma_direction(m.y as int, report.y as int);
}

/// Two movements do not oppose each other if and only if their product is not negative.
proof fn lemma_direction(a: int, b: int)
    ensures
        same_direction(a, b) <==> a * b >= 0,
{
    assert(a > 0 && b > 0 ==> a * b > 0) by (nonlinear_arith);
    assert(a < 0 && b < 0 ==> a * b > 0) by (nonlinear_arith);
    assert(a > 0 && b < 0 ==> a * b < 0) by (nonlinear_arith);
    assert(a < 0 && b > 0 ==> a * b < 0) by (nonlinear_arith);
    assert(a == 0 || b == 0 ==> a * b == 0) by (nonlinear_arith);
}

/// Each report of a run moves as far along each axis as it can hold, in the direction of
/// the run and with its buttons, and the rest stays in the run.
pub proof fn law_reports_move_as_far_as_they_can(m: BleMouseMotion)
    ensures
        ({
            let report = head_report(m);
            let rest = after_head(m);
            let held = |v: int|
                if v > 127 {
                    127
                } else if v < -128 {
                    -128
                } else {
                    v
                };
            &&& report.x == held(m.x as int) && report.y == held(m.y as int)
            &&& report.buttons == m.buttons && report.wheel == 0 && report.pan == 0
            &&& rest.buttons == m.buttons
            &&& rest.x == m.x - report.x && rest.y == m.y - report.y
        }),
        is_spent(m) <==> m.x == 0 && m.y == 0,
{
}

} // verus!
