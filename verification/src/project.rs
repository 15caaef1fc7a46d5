//! Coordinate projection: convert an arbitrary data value into a pixel
//! position using an axis's tick registry.
//!
//! A value lying exactly on a registered label takes that label's own
//! position. Any other value interpolates linearly inside its unit interval:
//! its floor label must be registered, and the fractional part of the value,
//! scaled by the axis's per-label pixel allocation, offsets the position away
//! from the axis origin — added on the horizontal axis, subtracted on the
//! vertical one, since canvas pixel y shrinks as the data value grows. A
//! value whose floor label is unregistered is a coverage failure.

use vstd::prelude::*;

use crate::axis::Axis;
use crate::axis::TickRegistry;
use crate::error::{ChartErrors, ChartResult};
use crate::fixed::Fixed;

verus! {

/// The projected position of `v` along `reg`'s axis, in milli-pixels, or
/// `None` when the registry does not cover the value.
pub open spec fn spec_project(reg: TickRegistry, v: Fixed) -> Option<int> {
    if reg.spec_contains(v.spec_floor()) {
        let base = reg.spec_pos(v.spec_floor());
        let delta = reg.step * v.spec_frac();
        match reg.axis {
            Axis::Horizontal => Some(base + delta),
            Axis::Vertical => Some(base - delta),
        }
    } else {
        None
    }
}

/// Every covered projection lies within a pixel of the canvas scale.
pub proof fn lemma_project_bounds(reg: TickRegistry, v: Fixed)
    requires
        reg.wf(),
        spec_project(reg, v) is Some,
    ensures
        -400_000 <= spec_project(reg, v).unwrap() <= 900_000,
{
    assert(0 <= reg.step * v.spec_frac() <= 400_000) by (nonlinear_arith)
        requires
            0 <= reg.step <= 400,
            0 <= v.spec_frac() < 1000,
    ;
}

/// Law: a value lying exactly on a registered label projects to precisely
/// that label's registered position — interpolation contributes nothing.
/// This holds of every registered label, the boundary (greatest) label
/// included.
pub proof fn lemma_exact_label_projects_to_tick(reg: TickRegistry, v: Fixed)
    requires
        reg.wf(),
        v.is_whole(),
        reg.spec_contains(v.spec_floor()),
    ensures
        spec_project(reg, v) == Some(reg.spec_pos(v.spec_floor())),
{
    assert(reg.step * 0 == 0) by (nonlinear_arith);
}

/// Project one data value into pixel space along the registry's axis.
/// Reports `LabelCoverageError` exactly when the registry does not cover the
/// value.
pub fn project(reg: &TickRegistry, v: Fixed) -> (r: ChartResult<i64>)
    requires
        reg.wf(),
    ensures
        r matches Ok(p) ==> spec_project(*reg, v) == Some(p as int),
        r is Err <==> spec_project(*reg, v) is None,
        r is Err ==> r == ChartResult::<i64>::Err(ChartErrors::LabelCoverageError),
{
    let f = v.floor();
    match reg.lookup(f) {
        None => Err(ChartErrors::LabelCoverageError),
        Some(base) => {
            let frac = v.frac_milli();
            proof {
                assert(0 <= reg.step * frac <= 400_000) by (nonlinear_arith)
                    requires
                        0 <= reg.step <= 400,
                        0 <= frac < 1000,
                ;
            }
            let delta = reg.step * frac;
            let p = match reg.axis {
                Axis::Horizontal => base + delta,
                Axis::Vertical => base - delta,
            };
            Ok(p)
        },
    }
}

/// The whole-pixel coordinate of a milli-pixel position: the fractional part
/// is discarded toward zero.
pub open spec fn spec_px(m: int) -> int {
    if m >= 0 {
        m / 1000
    } else {
        -((-m) / 1000)
    }
}

/// A milli-pixel position within a pixel of the canvas scale truncates to a
/// whole-pixel coordinate within the scale.
pub proof fn lemma_px_bounds(m: int)
    requires
        -1_000_000 <= m <= 1_000_000,
    ensures
        -1000 <= spec_px(m) <= 1000,
{
    if m >= 0 {
        vstd::arithmetic::div_mod::lemma_div_is_ordered(0, m, 1000);
        vstd::arithmetic::div_mod::lemma_div_is_ordered(m, 1_000_000, 1000);
    } else {
        vstd::arithmetic::div_mod::lemma_div_is_ordered(0, -m, 1000);
        vstd::arithmetic::div_mod::lemma_div_is_ordered(-m, 1_000_000, 1000);
    }
}

/// Truncate a milli-pixel position to its whole-pixel coordinate.
pub(crate) fn to_pixel(m: i64) -> (r: i64)
    requires
        -1_000_000 <= m <= 1_000_000,
    ensures
        r == spec_px(m as int),
        -1000 <= r <= 1000,
{
    if m >= 0 {
        match m.checked_div_euclid(1000) {
            Some(q) => q,
            None => 0,
        }
    } else {
        match (-m).checked_div_euclid(1000) {
            Some(q) => -q,
            None => 0,
        }
    }
}

/// The projected whole-pixel point of one data pair, or `None` when either
/// axis fails to cover it.
pub open spec fn spec_project_point(
    xreg: TickRegistry,
    yreg: TickRegistry,
    p: (Fixed, Fixed),
) -> Option<(int, int)> {
    match (spec_project(xreg, p.0), spec_project(yreg, p.1)) {
        (Some(x), Some(y)) => Some((spec_px(x), spec_px(y))),
        _ => None,
    }
}

/// True when both registries cover every data pair.
pub open spec fn spec_all_covered(
    xreg: TickRegistry,
    yreg: TickRegistry,
    data: Seq<(Fixed, Fixed)>,
) -> bool {
    forall|i: int| 0 <= i < data.len() ==> spec_project_point(xreg, yreg, data[i]) is Some
}

/// Project every data pair into whole-pixel space, one projected point per
/// pair, duplicates preserved in order. The first pair either registry fails
/// to cover makes the whole projection report `LabelCoverageError`.
pub fn project_points(xreg: &TickRegistry, yreg: &TickRegistry, data: &Vec<(Fixed, Fixed)>) -> (r:
    ChartResult<Vec<(i32, i32)>>)
    requires
        xreg.wf(),
        yreg.wf(),
    ensures
        r is Ok <==> spec_all_covered(*xreg, *yreg, data@),
        r matches Ok(pts) ==> {
            &&& pts@.len() == data@.len()
            &&& forall|i: int|
                0 <= i < data@.len() ==> Some((#[trigger] pts@[i].0 as int, pts@[i].1 as int))
                    == spec_project_point(*xreg, *yreg, data@[i])
        },
        r is Err ==> r == ChartResult::<Vec<(i32, i32)>>::Err(ChartErrors::LabelCoverageError),
{
    let mut pts: Vec<(i32, i32)> = Vec::new();
    let mut i: usize = 0;
    while i < data.len()
        invariant
            0 <= i <= data@.len(),
            xreg.wf(),
            yreg.wf(),
            pts@.len() == i,
            forall|j: int|
                0 <= j < i ==> Some((#[trigger] pts@[j].0 as int, pts@[j].1 as int))
                    == spec_project_point(*xreg, *yreg, data@[j]),
        decreases data@.len() - i,
    {
        let (vx, vy) = data[i];
        let px_milli = match project(xreg, vx) {
            Ok(p) => p,
            Err(e) => {
                return Err(e);
            },
        };
        let py_milli = match project(yreg, vy) {
            Ok(p) => p,
            Err(e) => {
                return Err(e);
            },
        };
        proof {
            lemma_project_bounds(*xreg, vx);
            lemma_project_bounds(*yreg, vy);
        }
        let px = to_pixel(px_milli);
        let py = to_pixel(py_milli);
        pts.push((px as i32, py as i32));
        i = i + 1;
    }
    proof {
        assert forall|j: int| 0 <= j < data@.len() implies spec_project_point(
            *xreg,
            *yreg,
            data@[j],
        ) is Some by {
            assert(Some((pts@[j].0 as int, pts@[j].1 as int)) == spec_project_point(
                *xreg,
                *yreg,
                data@[j],
            ));
        }
    }
    Ok(pts)
}

} // verus!
