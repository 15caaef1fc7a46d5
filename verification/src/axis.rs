//! Axis mapping: assign each label of a label run a fixed pixel position
//! along one of the two axis lines, and record the label-to-position lookup
//! (the tick registry).
//!
//! The canvas is 500 by 500 pixels with a 50 pixel padding, so each axis line
//! spans 400 pixels. An axis with `n` labels allocates `step = 400 / n` whole
//! pixels to each label and centers the label's tick in its slice, walking
//! the axis from its start: down-to-up for the vertical axis (pixel y shrinks
//! as the data value grows), left-to-right for the horizontal one.
//!
//! Positions are held in milli-pixels (thousandths of a pixel) so the slice
//! midpoint `step / 2` and interpolated offsets stay exact.

use vstd::prelude::*;

verus! {

/// Which of the two canvas axes a registry belongs to.
#[derive(Debug, Clone, Copy, PartialEq, Eq, Structural)]
pub enum Axis {
    /// Pixel positions grow with the data value.
    Horizontal,
    /// Pixel positions shrink as the data value grows.
    Vertical,
}

/// Canvas width and height, in pixels.
pub const CANVAS_SIZE: u32 = 500;

/// Gap between the canvas edge and an axis line, in pixels.
pub const PADDING: i64 = 50;

/// Length of each axis line, in pixels.
pub const AXIS_SPAN: i64 = 400;

/// Length of the short perpendicular mark drawn at each tick, in pixels.
pub const TICK_LEN: i64 = 5;

/// The pixel position assigned to the label at index `i` of its run, in
/// milli-pixels: the midpoint of its allocated `step`-pixel slice, measured
/// from the axis start (the shared axis foot at pixel (50, 450)).
pub open spec fn spec_tick_pos(axis: Axis, i: int, step: int) -> int {
    match axis {
        Axis::Horizontal => 50_000 + i * step * 1000 + step * 500,
        Axis::Vertical => 450_000 - i * step * 1000 - step * 500,
    }
}

/// The per-axis mapping from label value to assigned pixel position.
pub struct TickRegistry {
    /// One `(label, position)` pair per label, in label order; positions are
    /// in milli-pixels.
    pub entries: Vec<(i64, i64)>,
    /// Whole pixels allocated to each label's slice.
    pub step: i64,
    /// The axis the positions lie along.
    pub axis: Axis,
}

impl TickRegistry {
    /// Well-formedness: the slice width is at most the axis span, labels are
    /// strictly ascending (so lookup is unambiguous), and every position lies
    /// on the canvas scale.
    pub open spec fn wf(self) -> bool {
        &&& 0 <= self.step <= 400
        &&& forall|i: int, j: int|
            0 <= i < j < self.entries@.len() ==> #[trigger] self.entries@[i].0
                < #[trigger] self.entries@[j].0
        &&& forall|i: int|
            0 <= i < self.entries@.len() ==> 0 <= #[trigger] self.entries@[i].1 <= 500_000
    }

    /// True when `label` has an assigned position.
    pub open spec fn spec_contains(self, label: int) -> bool {
        exists|i: int| 0 <= i < self.entries@.len() && self.entries@[i].0 == label
    }

    /// The position assigned to `label`, in milli-pixels.
    pub open spec fn spec_pos(self, label: int) -> int {
        self.entries@[choose|i: int|
            0 <= i < self.entries@.len() && self.entries@[i].0 == label].1 as int
    }

    /// Exact-match lookup of a label's assigned position.
    pub fn lookup(&self, label: i64) -> (r: Option<i64>)
        requires
            self.wf(),
        ensures
            r is Some <==> self.spec_contains(label as int),
            r matches Some(p) ==> p == self.spec_pos(label as int),
    {
        let mut i: usize = 0;
        while i < self.entries.len()
            invariant
                0 <= i <= self.entries@.len(),
                self.wf(),
                forall|j: int| 0 <= j < i ==> #[trigger] self.entries@[j].0 != label,
            decreases self.entries@.len() - i,
        {
            if self.entries[i].0 == label {
                return Some(self.entries[i].1);
            }
            i = i + 1;
        }
        None
    }
}

/// Assign each label the position at the midpoint of its allocated slice
/// along `axis`, walking the axis from its start in `step = 400 / n`
/// increments. A run of at least one label is a precondition: a zero-label
/// axis has no slice width.
pub fn build_registry(labels: &Vec<i64>, axis: Axis) -> (r: TickRegistry)
    requires
        labels@.len() >= 1,
        forall|i: int, j: int|
            0 <= i < j < labels@.len() ==> #[trigger] labels@[i] < #[trigger] labels@[j],
    ensures
        r.wf(),
        r.axis == axis,
        r.step == 400int / labels@.len() as int,
        r.entries@.len() == labels@.len(),
        forall|i: int| 0 <= i < labels@.len() ==> #[trigger] r.entries@[i].0 == labels@[i],
        forall|i: int|
            0 <= i < labels@.len() ==> #[trigger] r.entries@[i].1 == spec_tick_pos(
                axis,
                i,
                400int / labels@.len() as int,
            ),
{
    let count = labels.len();
    let step: i64 = (400usize / count) as i64;
    proof {
        vstd::arithmetic::div_mod::lemma_fundamental_div_mod(400, count as int);
        assert(count as int * step <= 400);
    }
    let mut entries: Vec<(i64, i64)> = Vec::new();
    let mut i: usize = 0;
    while i < count
        invariant
            0 <= i <= count,
            count == labels@.len(),
            0 <= step <= 400,
            count as int * step <= 400,
            step == 400int / count as int,
            entries@.len() == i,
            forall|j: int| 0 <= j < i ==> #[trigger] entries@[j].0 == labels@[j],
            forall|j: int|
                0 <= j < i ==> #[trigger] entries@[j].1 == spec_tick_pos(axis, j, step as int),
            forall|j: int| 0 <= j < i ==> 0 <= #[trigger] entries@[j].1 <= 500_000,
        decreases count - i,
    {
        let off: i64 = if step == 0 {
            proof {
                vstd::arithmetic::mul::lemma_mul_basics(i as int);
                assert(spec_tick_pos(axis, i as int, 0) == match axis {
                    Axis::Horizontal => 50_000int,
                    Axis::Vertical => 450_000int,
                });
            }
            0
        } else {
            proof {
                assert(count as int <= 400) by (nonlinear_arith)
                    requires
                        1 <= step,
                        1 <= count as int,
                        count as int * step <= 400,
                ;
                assert(0 <= i as int * step && i as int * step <= 400 - step) by (nonlinear_arith)
                    requires
                        0 <= i as int,
                        i as int <= count as int - 1,
                        1 <= step,
                        count as int * step <= 400,
                ;
            }
            (i as i64) * step * 1000 + step * 500
        };
        let pos: i64 = match axis {
            Axis::Horizontal => 50_000 + off,
            Axis::Vertical => 450_000 - off,
        };
        entries.push((labels[i], pos));
        i = i + 1;
    }
    TickRegistry { entries, step, axis }
}

/// Law: an axis with a single label allocates it the whole 400 pixel span
/// (`step == 400 / 1`) and centers the one tick at the geometric midpoint of
/// the axis line, 250 pixels, on either axis. The mapper itself never divides
/// by zero: it requires at least one label.
pub proof fn lemma_single_label_tick_centered(axis: Axis)
    ensures
        400int / 1int == 400,
        spec_tick_pos(axis, 0, 400) == (50_000 + 450_000) / 2,
{
}

} // verus!
