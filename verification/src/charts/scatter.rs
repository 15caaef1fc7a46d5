//! The scatter graph builder and renderer.
//!
//! A [`ScatterGraph`] is assembled by chained setters — title, axis captions,
//! labels, data — and then drawn: the renderer composes axis lines, ticks and
//! their label texts, the captions, the title, and one weighted circular
//! marker per distinct projected pixel onto a 500 by 500 canvas. The whole
//! layout — label runs, tick positions, projected pixels, marker weights — is
//! a pure function of the builder's configuration; only the marker colors are
//! drawn at random.

use vstd::prelude::*;

use crate::aggregate::{
    aggregate, lemma_aggregate_props, lemma_count_le_len, lemma_count_pos_exists, spec_aggregate,
};
use crate::axis::{build_registry, spec_tick_pos, Axis, TickRegistry};
use crate::canvas::{
    canvas_ops, decimal_of, draw_disc, draw_filled_rect, draw_text, fill_canvas, label_text,
    measure_text, new_canvas, overlay_at, random_channels, rotate_270, Canvas, DrawOp,
};
use crate::error::{ChartErrors, ChartResult};
use crate::fixed::Fixed;
use crate::labels::{
    generate_labels, labels_for, lemma_label_run_covers_floors, lemma_unit_spaced_ascending,
    unit_spaced,
};
use crate::project::{
    lemma_project_bounds, lemma_px_bounds, project_points, spec_all_covered, spec_project,
    spec_project_point, spec_px, to_pixel,
};

verus! {

/// Scale of the title and caption text, in pixels.
pub const TEXT_SCALE: u16 = 25;

/// Scale of the tick label text, in pixels.
pub const LABEL_SCALE: u16 = 12;

/// A builder for scatter graphs.
pub struct ScatterGraph<'a> {
    /// The title drawn above the vertical axis.
    pub title: &'a str,
    /// The caption drawn under the horizontal axis.
    pub x_axis_text: &'a str,
    /// The caption drawn beside the vertical axis, rotated.
    pub y_axis_text: &'a str,
    /// The horizontal axis's label run.
    pub x_labels: Vec<i64>,
    /// The vertical axis's label run.
    pub y_labels: Vec<i64>,
    /// The observations to plot.
    pub data: Vec<(Fixed, Fixed)>,
}

/// True when some label equals the value's floor, so the label run covers the
/// value.
pub open spec fn covers(labels: Seq<i64>, v: Fixed) -> bool {
    exists|i: int| 0 <= i < labels.len() && labels[i] == v.spec_floor()
}

/// The projected position of `v` against a unit-spaced label run, in
/// milli-pixels: the tick position of the value's floor label, offset into
/// the label's slice by the value's fraction — rightward on the horizontal
/// axis, upward (smaller pixel y) on the vertical one. Meaningful when the
/// run covers the value.
pub open spec fn spec_pixel_of(labels: Seq<i64>, axis: Axis, v: Fixed) -> int {
    let step = 400int / labels.len() as int;
    let base = spec_tick_pos(axis, v.spec_floor() - labels[0], step);
    match axis {
        Axis::Horizontal => base + step * v.spec_frac(),
        Axis::Vertical => base - step * v.spec_frac(),
    }
}

impl<'a> ScatterGraph<'a> {
    /// Well-formedness: both label runs are ascending and unit-spaced.
    pub open spec fn wf(self) -> bool {
        &&& unit_spaced(self.x_labels@)
        &&& unit_spaced(self.y_labels@)
    }

    /// True when both label runs cover every observation, so every point can
    /// be projected.
    pub open spec fn spec_covered(self) -> bool {
        forall|k: int|
            0 <= k < self.data@.len() ==> covers(self.x_labels@, (#[trigger] self.data@[k]).0)
                && covers(self.y_labels@, self.data@[k].1)
    }

    /// The whole-pixel point each observation projects to, one per
    /// observation, duplicates preserved in order.
    pub open spec fn spec_pixels(self) -> Seq<(i32, i32)> {
        Seq::new(
            self.data@.len(),
            |k: int|
                (
                    spec_px(
                        spec_pixel_of(self.x_labels@, Axis::Horizontal, self.data@[k].0),
                    ) as i32,
                    spec_px(spec_pixel_of(self.y_labels@, Axis::Vertical, self.data@[k].1)) as i32,
                ),
        )
    }

    /// The weighted markers the renderer draws: the projected points
    /// collapsed per distinct pixel, in first-seen order.
    pub open spec fn spec_markers(self) -> Seq<((i32, i32), u32)> {
        spec_aggregate(self.spec_pixels())
    }
}

impl<'a> Default for ScatterGraph<'a> {
    /// The empty builder: placeholder texts, no labels, no data.
    fn default() -> (r: Self)
        ensures
            r.wf(),
            r.title@ == "unset"@,
            r.x_axis_text@ == "unset"@,
            r.y_axis_text@ == "unset"@,
            r.x_labels@.len() == 0,
            r.y_labels@.len() == 0,
            r.data@.len() == 0,
    {
        ScatterGraph {
            title: "unset",
            x_axis_text: "unset",
            y_axis_text: "unset",
            x_labels: Vec::new(),
            y_labels: Vec::new(),
            data: Vec::new(),
        }
    }
}

/// Law: every generated label run covers each of the values it was generated
/// from — the floor of any value is one of the run's labels.
pub proof fn lemma_generated_labels_cover(labels: Seq<i64>, vals: Seq<Fixed>, k: int)
    requires
        0 <= k < vals.len(),
        labels.len() == labels_for(vals).len(),
        forall|i: int| 0 <= i < labels.len() ==> labels[i] == labels_for(vals)[i],
    ensures
        covers(labels, vals[k]),
{
    lemma_label_run_covers_floors(vals, k);
    let lo = labels_for(vals)[0];
    let f = vals[k].spec_floor();
    let i = f - lo;
    assert(labels_for(vals)[i] == lo + i);
    assert(labels[i] == f);
}

/// Law: the layout is a pure function of the plot's configuration. Two plots
/// holding equal labels and equal data place exactly equal markers; between
/// two otherwise identical draws only the randomly drawn marker colors can
/// differ.
pub proof fn lemma_layout_deterministic<'a, 'b>(a: ScatterGraph<'a>, b: ScatterGraph<'b>)
    requires
        a.x_labels@ == b.x_labels@,
        a.y_labels@ == b.y_labels@,
        a.data@ == b.data@,
    ensures
        a.spec_pixels() == b.spec_pixels(),
        a.spec_markers() == b.spec_markers(),
{
    assert(a.spec_pixels() =~= b.spec_pixels());
}

impl<'a> ScatterGraph<'a> {
    /// Begin building a scatter graph: returns the empty builder.
    pub fn build() -> (r: Self)
        ensures
            r.wf(),
            r.title@ == "unset"@,
            r.x_axis_text@ == "unset"@,
            r.y_axis_text@ == "unset"@,
            r.x_labels@.len() == 0,
            r.y_labels@.len() == 0,
            r.data@.len() == 0,
    {
        Self::default()
    }

    /// Load the observations and generate both axes' labels from their
    /// extent: each axis's run goes from the floor of that dimension's least
    /// value to the ceiling of its greatest, unit-spaced. Empty data has no
    /// extent and is rejected with `EmptyInput`. Generated labels always
    /// cover the data they were generated from.
    pub fn load_data(self, data: Vec<(Fixed, Fixed)>) -> (r: ChartResult<ScatterGraph<'a>>)
        ensures
            r is Err <==> data@.len() == 0,
            r is Err ==> r == ChartResult::<ScatterGraph<'a>>::Err(ChartErrors::EmptyInput),
            r matches Ok(g) ==> {
                &&& g.wf()
                &&& g.title@ == self.title@
                &&& g.x_axis_text@ == self.x_axis_text@
                &&& g.y_axis_text@ == self.y_axis_text@
                &&& g.data@ == data@
                &&& g.x_labels@.len() == labels_for(xs_of(data@)).len()
                &&& forall|i: int|
                    0 <= i < g.x_labels@.len() ==> g.x_labels@[i] == labels_for(xs_of(data@))[i]
                &&& g.y_labels@.len() == labels_for(ys_of(data@)).len()
                &&& forall|i: int|
                    0 <= i < g.y_labels@.len() ==> g.y_labels@[i] == labels_for(ys_of(data@))[i]
                &&& g.x_labels@.len() >= 1
                &&& g.y_labels@.len() >= 1
                &&& g.spec_covered()
            },
    {
        if data.len() == 0 {
            return Err(ChartErrors::EmptyInput);
        }
        let mut xs: Vec<Fixed> = Vec::new();
        let mut ys: Vec<Fixed> = Vec::new();
        let mut i: usize = 0;
        while i < data.len()
            invariant
                0 <= i <= data@.len(),
                xs@.len() == i,
                ys@.len() == i,
                forall|j: int| 0 <= j < i ==> #[trigger] xs@[j] == data@[j].0,
                forall|j: int| 0 <= j < i ==> #[trigger] ys@[j] == data@[j].1,
            decreases data@.len() - i,
        {
            let p = data[i];
            xs.push(p.0);
            ys.push(p.1);
            i = i + 1;
        }
        proof {
            assert(xs@ =~= xs_of(data@));
            assert(ys@ =~= ys_of(data@));
        }
        let x_labels = match generate_labels(&xs) {
            Ok(l) => l,
            Err(e) => {
                return Err(e);
            },
        };
        let y_labels = match generate_labels(&ys) {
            Ok(l) => l,
            Err(e) => {
                return Err(e);
            },
        };
        let g = ScatterGraph {
            title: self.title,
            x_axis_text: self.x_axis_text,
            y_axis_text: self.y_axis_text,
            x_labels,
            y_labels,
            data,
        };
        proof {
            crate::labels::lemma_label_run_covers(xs_of(g.data@));
            crate::labels::lemma_label_run_covers(ys_of(g.data@));
            assert forall|k: int| 0 <= k < g.data@.len() implies covers(
                g.x_labels@,
                (#[trigger] g.data@[k]).0,
            ) && covers(g.y_labels@, g.data@[k].1) by {
                assert(xs_of(g.data@)[k] == g.data@[k].0);
                assert(ys_of(g.data@)[k] == g.data@[k].1);
                lemma_generated_labels_cover(g.x_labels@, xs_of(g.data@), k);
                lemma_generated_labels_cover(g.y_labels@, ys_of(g.data@), k);
            }
        }
        Ok(g)
    }

    /// Set the graph's title.
    pub fn set_title(self, title: &'a str) -> (r: Self)
        ensures
            r == (ScatterGraph { title, ..self }),
    {
        ScatterGraph { title, ..self }
    }

    /// Set the caption text describing each axis.
    pub fn set_axis_text(self, x_axis_text: &'a str, y_axis_text: &'a str) -> (r: Self)
        ensures
            r == (ScatterGraph { x_axis_text, y_axis_text, ..self }),
    {
        ScatterGraph { x_axis_text, y_axis_text, ..self }
    }

    /// Supply both axes' label runs directly, bypassing generation. Each run
    /// must be ascending and unit-spaced — the label set's invariant. A run
    /// that does not cover the data makes `draw` report
    /// `LabelCoverageError`.
    pub fn set_labels(self, x_labels: Vec<i64>, y_labels: Vec<i64>) -> (r: Self)
        requires
            unit_spaced(x_labels@),
            unit_spaced(y_labels@),
        ensures
            r.x_labels@ == x_labels@,
            r.y_labels@ == y_labels@,
            r.title@ == self.title@,
            r.x_axis_text@ == self.x_axis_text@,
            r.y_axis_text@ == self.y_axis_text@,
            r.data@ == self.data@,
            r.wf(),
    {
        ScatterGraph { x_labels, y_labels, ..self }
    }
}

/// The first components of the observations, in order.
pub open spec fn xs_of(data: Seq<(Fixed, Fixed)>) -> Seq<Fixed> {
    data.map_values(|p: (Fixed, Fixed)| p.0)
}

/// The second components of the observations, in order.
pub open spec fn ys_of(data: Seq<(Fixed, Fixed)>) -> Seq<Fixed> {
    data.map_values(|p: (Fixed, Fixed)| p.1)
}

/// A registry built from a unit-spaced label run projects exactly as the
/// label-level pipeline says: it holds a value's floor label exactly when the
/// run covers the value, and then assigns the label-level position.
proof fn lemma_registry_projection(reg: TickRegistry, labels: Seq<i64>, axis: Axis, v: Fixed)
    requires
        labels.len() >= 1,
        unit_spaced(labels),
        reg.wf(),
        reg.axis == axis,
        reg.step == 400int / labels.len() as int,
        reg.entries@.len() == labels.len(),
        forall|i: int| 0 <= i < labels.len() ==> #[trigger] reg.entries@[i].0 == labels[i],
        forall|i: int|
            0 <= i < labels.len() ==> #[trigger] reg.entries@[i].1 == spec_tick_pos(
                axis,
                i,
                400int / labels.len() as int,
            ),
    ensures
        reg.spec_contains(v.spec_floor()) <==> covers(labels, v),
        covers(labels, v) ==> spec_project(reg, v) == Some(spec_pixel_of(labels, axis, v)),
{
    let f = v.spec_floor();
    if covers(labels, v) {
        let i = choose|i: int| 0 <= i < labels.len() && labels[i] == f;
        assert(reg.entries@[i].0 == f);
        assert(reg.spec_contains(f));
        let j = choose|j: int| 0 <= j < reg.entries@.len() && reg.entries@[j].0 == f;
        assert(labels[j] == f);
        assert(labels[j] == labels[0] + j);
        assert(labels[i] == labels[0] + i);
        assert(j == i);
        assert(i == f - labels[0]);
        assert(reg.spec_pos(f) == spec_tick_pos(axis, i, 400int / labels.len() as int));
    }
    if reg.spec_contains(f) {
        let j = choose|j: int| 0 <= j < reg.entries@.len() && reg.entries@[j].0 == f;
        assert(labels[j] == f);
        assert(covers(labels, v));
    }
}

impl<'a> ScatterGraph<'a> {
    /// Build both tick registries and the marker list of a non-empty,
    /// well-formed plot. Reports `LabelCoverageError` exactly when some
    /// observation is not covered by its axis's label run.
    fn layout(&self) -> (r: ChartResult<(TickRegistry, TickRegistry, Vec<((i32, i32), u32)>)>)
        requires
            self.wf(),
            self.data@.len() >= 1,
            self.data@.len() + 2 <= 400_000_000,
            self.x_labels@.len() >= 1,
            self.y_labels@.len() >= 1,
        ensures
            r is Ok <==> self.spec_covered(),
            r is Err ==> r == ChartResult::<(TickRegistry, TickRegistry, Vec<((i32, i32), u32)>)>::Err(
                ChartErrors::LabelCoverageError,
            ),
            r matches Ok(t) ==> {
                &&& t.0.wf()
                &&& t.0.entries@.len() == self.x_labels@.len()
                &&& forall|i: int|
                    0 <= i < self.x_labels@.len() ==> (#[trigger] t.0.entries@[i]).0
                        == self.x_labels@[i]
                &&& forall|i: int|
                    0 <= i < self.x_labels@.len() ==> (#[trigger] t.0.entries@[i]).1
                        == spec_tick_pos(Axis::Horizontal, i, 400int / self.x_labels@.len() as int)
                &&& t.1.wf()
                &&& t.1.entries@.len() == self.y_labels@.len()
                &&& forall|i: int|
                    0 <= i < self.y_labels@.len() ==> (#[trigger] t.1.entries@[i]).0
                        == self.y_labels@[i]
                &&& forall|i: int|
                    0 <= i < self.y_labels@.len() ==> (#[trigger] t.1.entries@[i]).1
                        == spec_tick_pos(Axis::Vertical, i, 400int / self.y_labels@.len() as int)
                &&& t.2@ == self.spec_markers()
                &&& forall|i: int|
                    0 <= i < t.2@.len() ==> {
                        &&& -1000 <= (#[trigger] t.2@[i]).0.0 <= 1000
                        &&& -1000 <= t.2@[i].0.1 <= 1000
                        &&& 3 <= t.2@[i].1 <= self.data@.len() + 2
                    }
            },
    {
        proof {
            lemma_unit_spaced_ascending(self.x_labels@);
            lemma_unit_spaced_ascending(self.y_labels@);
        }
        let xreg = build_registry(&self.x_labels, Axis::Horizontal);
        let yreg = build_registry(&self.y_labels, Axis::Vertical);
        proof {
            assert forall|k: int| 0 <= k < self.data@.len() implies (spec_project_point(
                xreg,
                yreg,
                #[trigger] self.data@[k],
            ) is Some <==> (covers(self.x_labels@, self.data@[k].0) && covers(
                self.y_labels@,
                self.data@[k].1,
            ))) by {
                lemma_registry_projection(xreg, self.x_labels@, Axis::Horizontal, self.data@[k].0);
                lemma_registry_projection(yreg, self.y_labels@, Axis::Vertical, self.data@[k].1);
            }
        }
        let pts = match project_points(&xreg, &yreg, &self.data) {
            Ok(p) => p,
            Err(e) => {
                proof {
                    assert(!spec_all_covered(xreg, yreg, self.data@));
                    let k = choose|k: int|
                        0 <= k < self.data@.len() && !(spec_project_point(
                            xreg,
                            yreg,
                            self.data@[k],
                        ) is Some);
                    assert(!(covers(self.x_labels@, (self.data@[k]).0) && covers(
                        self.y_labels@,
                        self.data@[k].1,
                    )));
                }
                return Err(e);
            },
        };
        proof {
            assert forall|k: int|
                0 <= k < pts@.len() implies #[trigger] pts@[k] == self.spec_pixels()[k] && -1000
                <= pts@[k].0 <= 1000 && -1000 <= pts@[k].1 <= 1000 by {
                lemma_registry_projection(xreg, self.x_labels@, Axis::Horizontal, self.data@[k].0);
                lemma_registry_projection(yreg, self.y_labels@, Axis::Vertical, self.data@[k].1);
                lemma_project_bounds(xreg, self.data@[k].0);
                lemma_project_bounds(yreg, self.data@[k].1);
                lemma_px_bounds(spec_project(xreg, self.data@[k].0).unwrap());
                lemma_px_bounds(spec_project(yreg, self.data@[k].1).unwrap());
            }
            assert(pts@ =~= self.spec_pixels());
        }
        let markers = aggregate(&pts);
        proof {
            lemma_aggregate_props(pts@);
            assert forall|i: int|
                0 <= i < markers@.len() implies {
                &&& -1000 <= (#[trigger] markers@[i]).0.0 <= 1000
                &&& -1000 <= markers@[i].0.1 <= 1000
                &&& 3 <= markers@[i].1 <= self.data@.len() + 2
            } by {
                lemma_count_le_len(pts@, markers@[i].0);
                lemma_count_pos_exists(pts@, markers@[i].0);
                let idx = choose|idx: int| 0 <= idx < pts@.len() && pts@[idx] == markers@[i].0;
                assert(pts@[idx] == self.spec_pixels()[idx]);
            }
        }
        Ok((xreg, yreg, markers))
    }

    /// The weighted markers `draw` will place: every observation projected to
    /// its whole pixel, coincident pixels collapsed into one marker of weight
    /// `3 + occurrences - 1`, in first-seen order. Empty data reports
    /// `EmptyInput`; an uncovered observation reports `LabelCoverageError`.
    pub fn compute_markers(&self) -> (r: ChartResult<Vec<((i32, i32), u32)>>)
        requires
            self.wf(),
            self.data@.len() + 2 <= 400_000_000,
            self.data@.len() >= 1 ==> self.x_labels@.len() >= 1 && self.y_labels@.len() >= 1,
        ensures
            self.data@.len() == 0 ==> r == ChartResult::<Vec<((i32, i32), u32)>>::Err(
                ChartErrors::EmptyInput,
            ),
            self.data@.len() >= 1 ==> (r is Ok <==> self.spec_covered()),
            self.data@.len() >= 1 && !self.spec_covered() ==> r == ChartResult::<
                Vec<((i32, i32), u32)>,
            >::Err(ChartErrors::LabelCoverageError),
            r matches Ok(m) ==> m@ == self.spec_markers(),
    {
        if self.data.len() == 0 {
            return Err(ChartErrors::EmptyInput);
        }
        match self.layout() {
            Ok((_, _, m)) => Ok(m),
            Err(e) => Err(e),
        }
    }
}

/// The x position centering an extent on the 500-pixel canvas, truncated
/// toward zero as the rest of the pixel pipeline truncates. An extent so wide
/// that the position leaves the drawing bounds is held at the bound: such
/// text lies off-canvas either way.
fn centered_x(extent: i32) -> (r: i32)
    requires
        extent >= 0,
    ensures
        -1_000_000 <= r <= 250,
        extent <= 500 ==> r == (500 - extent) / 2,
        500 < extent <= 2_000_500 ==> r == -((extent - 500) / 2),
{
    if extent <= 500 {
        (((500 - extent) as u32) / 2) as i32
    } else if extent <= 2_000_500 {
        let d = (((extent - 500) as u32) / 2) as i32;
        -d
    } else {
        -1_000_000
    }
}


/// The op is a text run of this content at this scale (its position is the
/// font's business and stays unconstrained).
pub open spec fn is_text_op(op: DrawOp, content: Seq<char>, scale: u16) -> bool {
    match op {
        DrawOp::Text { text, scale: s, .. } => text == content && s == scale,
        _ => false,
    }
}

/// The op is the filled circle of marker `m`: drawn at the marker's pixel
/// with radius equal to the marker's weight, and in the given color when one
/// was fixed.
pub open spec fn is_marker_disc(op: DrawOp, m: ((i32, i32), u32), fixed: Option<(u8, u8, u8)>) -> bool {
    match op {
        DrawOp::Disc { x, y, radius, color } => {
            &&& x == m.0.0
            &&& y == m.0.1
            &&& radius == m.1 as i32
            &&& match fixed {
                Some(c) => color == c,
                None => true,
            }
        },
        _ => false,
    }
}

/// The black tick-mark rectangle of the label at index `j` of an axis with
/// `n` labels: a short perpendicular mark at the label's tick position —
/// leftward off the vertical axis line, downward off the horizontal one.
pub open spec fn tick_rect(axis: Axis, j: int, n: int) -> DrawOp {
    match axis {
        Axis::Horizontal => DrawOp::Rect {
            x: spec_px(spec_tick_pos(axis, j, 400int / n)) as i32,
            y: 450,
            width: 1,
            height: 6,
            color: (0u8, 0u8, 0u8),
        },
        Axis::Vertical => DrawOp::Rect {
            x: 45,
            y: spec_px(spec_tick_pos(axis, j, 400int / n)) as i32,
            width: 6,
            height: 1,
            color: (0u8, 0u8, 0u8),
        },
    }
}

/// Ops `base + 2j` and `base + 2j + 1` of the trace are label `j`'s tick
/// mark and its decimal tick text, for every `j` below `upto`.
pub open spec fn spec_tick_run(
    labels: Seq<i64>,
    axis: Axis,
    ops: Seq<DrawOp>,
    base: int,
    upto: int,
) -> bool {
    forall|j: int|
        0 <= j < upto ==> #[trigger] ops[base + 2 * j] == tick_rect(axis, j, labels.len() as int)
            && is_text_op(ops[base + 2 * j + 1], decimal_of(labels[j] as int), LABEL_SCALE)
}

impl<'a> ScatterGraph<'a> {
    /// The composition's opening ops: the background fill, the two black
    /// axis lines, the horizontal caption's text, and the composited
    /// (rotated) vertical caption.
    pub open spec fn spec_prelude(self, ops: Seq<DrawOp>) -> bool {
        &&& ops.len() >= 5
        &&& ops[0] == DrawOp::Fill(255u8)
        &&& ops[1] == (DrawOp::Rect { x: 50, y: 50, width: 1, height: 401, color: (0u8, 0u8, 0u8) })
        &&& ops[2] == (DrawOp::Rect {
            x: 50,
            y: 450,
            width: 401,
            height: 1,
            color: (0u8, 0u8, 0u8),
        })
        &&& is_text_op(ops[3], self.x_axis_text@, TEXT_SCALE)
        &&& ops[4] is Overlay
    }

    /// The whole draw trace a composed plot shows, in order: the prelude,
    /// the vertical axis's ticks and tick texts, the horizontal axis's, the
    /// title's text, and finally exactly one filled circle per marker of
    /// [`spec_markers`](Self::spec_markers) — at the marker's pixel, its
    /// radius the marker's weight — and nothing else.
    pub open spec fn spec_composed_trace(
        self,
        ops: Seq<DrawOp>,
        fixed: Option<(u8, u8, u8)>,
    ) -> bool {
        let ny = self.y_labels@.len() as int;
        let nx = self.x_labels@.len() as int;
        let m = self.spec_markers();
        &&& ops.len() == 6 + 2 * ny + 2 * nx + m.len()
        &&& self.spec_prelude(ops)
        &&& spec_tick_run(self.y_labels@, Axis::Vertical, ops, 5, ny)
        &&& spec_tick_run(self.x_labels@, Axis::Horizontal, ops, 5 + 2 * ny, nx)
        &&& is_text_op(ops[5 + 2 * ny + 2 * nx], self.title@, TEXT_SCALE)
        &&& forall|i: int|
            0 <= i < m.len() ==> is_marker_disc(#[trigger] ops[6 + 2 * ny + 2 * nx + i], m[i], fixed)
    }
}

impl<'a> ScatterGraph<'a> {
    /// Compose the whole graph onto a fresh canvas. The marker color comes
    /// from `fixed_color` when given, else each marker draws a random one.
    fn compose<'f>(self, font: &rusttype::Font<'f>, fixed_color: Option<(u8, u8, u8)>) -> (r:
        ChartResult<Canvas>)
        requires
            self.wf(),
            self.data@.len() + 2 <= 400_000_000,
            self.data@.len() >= 1 ==> self.x_labels@.len() >= 1 && self.y_labels@.len() >= 1,
        ensures
            self.data@.len() == 0 ==> r == ChartResult::<Canvas>::Err(ChartErrors::EmptyInput),
            self.data@.len() >= 1 ==> (r is Ok <==> self.spec_covered()),
            self.data@.len() >= 1 && !self.spec_covered() ==> r == ChartResult::<Canvas>::Err(
                ChartErrors::LabelCoverageError,
            ),
            r matches Ok(c) ==> self.spec_composed_trace(canvas_ops(c), fixed_color),
    {
        if self.data.len() == 0 {
            return Err(ChartErrors::EmptyInput);
        }
        let (xreg, yreg, markers) = match self.layout() {
            Ok(t) => t,
            Err(e) => {
                return Err(e);
            },
        };
        let black = (0u8, 0u8, 0u8);
        let mut canvas = new_canvas(500, 500);
        fill_canvas(&mut canvas, 255);
        // the two axis lines, one pixel wide, 50 pixels in from the edges
        draw_filled_rect(&mut canvas, 50, 50, 1, 401, black);
        draw_filled_rect(&mut canvas, 50, 450, 401, 1, black);
        // horizontal-axis caption, centered under the axis
        let (cw, ch) = measure_text(TEXT_SCALE, font, self.x_axis_text);
        let cy: i32 = if ch <= 1_000_000 {
            500 - ch
        } else {
            500 - 1_000_000
        };
        draw_text(&mut canvas, black, centered_x(cw), cy, TEXT_SCALE, font, self.x_axis_text);
        // vertical-axis caption: rendered into its own buffer, rotated a
        // quarter turn, composited against the left margin, centered on the
        // axis
        let (yw, yh) = measure_text(TEXT_SCALE, font, self.y_axis_text);
        let tw: u32 = if yw > 100_000 {
            100_000
        } else {
            yw as u32
        };
        let th: u32 = if yh > 100_000 {
            100_000
        } else {
            yh as u32
        };
        let mut strip = new_canvas(tw, th);
        fill_canvas(&mut strip, 255);
        draw_text(&mut strip, black, 0, 0, TEXT_SCALE, font, self.y_axis_text);
        let rotated = rotate_270(&strip);
        overlay_at(&mut canvas, &rotated, 0, centered_x(yw) as i64);
        // vertical axis: ticks leftward off the axis line, labels
        // right-aligned against the tick and vertically centered on it
        let ghost ny = self.y_labels@.len() as int;
        let ghost nx = self.x_labels@.len() as int;
        let mut t: usize = 0;
        while t < yreg.entries.len()
            invariant
                yreg.wf(),
                yreg.entries@.len() == ny,
                ny == self.y_labels@.len(),
                forall|i: int| 0 <= i < ny ==> (#[trigger] yreg.entries@[i]).0 == self.y_labels@[i],
                forall|i: int|
                    0 <= i < ny ==> (#[trigger] yreg.entries@[i]).1 == spec_tick_pos(
                        Axis::Vertical,
                        i,
                        400int / ny,
                    ),
                0 <= t <= ny,
                black == (0u8, 0u8, 0u8),
                canvas_ops(canvas).len() == 5 + 2 * t,
                self.spec_prelude(canvas_ops(canvas)),
                spec_tick_run(self.y_labels@, Axis::Vertical, canvas_ops(canvas), 5, t as int),
            decreases yreg.entries@.len() - t,
        {
            let ghost ops0 = canvas_ops(canvas);
            let (lab, pos) = yreg.entries[t];
            let py = to_pixel(pos);
            draw_filled_rect(&mut canvas, 45, py as i32, 6, 1, black);
            let text = label_text(lab);
            let (lw, lh) = measure_text(LABEL_SCALE, font, text.as_str());
            let tx: i32 = if lw <= 1_000_000 {
                45 - lw
            } else {
                45 - 1_000_000
            };
            let half: i32 = if lh <= 1_900_000 {
                ((lh as u32) / 2) as i32
            } else {
                950_000
            };
            let ty: i32 = (py as i32) - half;
            draw_text(&mut canvas, black, tx, ty, LABEL_SCALE, font, text.as_str());
            proof {
                let a = DrawOp::Rect { x: 45, y: py as i32, width: 6u32, height: 1u32, color: black };
                let b = DrawOp::Text { x: tx, y: ty, scale: LABEL_SCALE, text: text@, color: black };
                let opsb = canvas_ops(canvas);
                assert(opsb == ops0.push(a).push(b));
                assert forall|j: int| 0 <= j < t + 1 implies #[trigger] opsb[5 + 2 * j]
                    == tick_rect(Axis::Vertical, j, ny) && is_text_op(
                    opsb[5 + 2 * j + 1],
                    decimal_of(self.y_labels@[j] as int),
                    LABEL_SCALE,
                ) by {
                    if j < t {
                        assert(opsb[5 + 2 * j] == ops0.push(a)[5 + 2 * j]);
                        assert(ops0.push(a)[5 + 2 * j] == ops0[5 + 2 * j]);
                        assert(opsb[5 + 2 * j + 1] == ops0.push(a)[5 + 2 * j + 1]);
                        assert(ops0.push(a)[5 + 2 * j + 1] == ops0[5 + 2 * j + 1]);
                    } else {
                        assert(5 + 2 * j == ops0.len());
                        assert(opsb[5 + 2 * j] == ops0.push(a)[5 + 2 * j]);
                        assert(ops0.push(a)[5 + 2 * j] == a);
                        assert(opsb[5 + 2 * j + 1] == b);
                        assert(pos == spec_tick_pos(Axis::Vertical, j, 400int / ny));
                        assert(py == spec_px(spec_tick_pos(Axis::Vertical, j, 400int / ny)));
                        assert(a == tick_rect(Axis::Vertical, j, ny));
                        assert(lab == self.y_labels@[j]);
                        assert(is_text_op(b, decimal_of(self.y_labels@[j] as int), LABEL_SCALE));
                    }
                }
            }
            t = t + 1;
        }
        // horizontal axis: ticks downward off the axis line, labels
        // horizontally centered under the tick
        let mut u: usize = 0;
        while u < xreg.entries.len()
            invariant
                xreg.wf(),
                xreg.entries@.len() == nx,
                nx == self.x_labels@.len(),
                ny == self.y_labels@.len(),
                forall|i: int| 0 <= i < nx ==> (#[trigger] xreg.entries@[i]).0 == self.x_labels@[i],
                forall|i: int|
                    0 <= i < nx ==> (#[trigger] xreg.entries@[i]).1 == spec_tick_pos(
                        Axis::Horizontal,
                        i,
                        400int / nx,
                    ),
                0 <= u <= nx,
                black == (0u8, 0u8, 0u8),
                canvas_ops(canvas).len() == 5 + 2 * ny + 2 * u,
                self.spec_prelude(canvas_ops(canvas)),
                spec_tick_run(self.y_labels@, Axis::Vertical, canvas_ops(canvas), 5, ny),
                spec_tick_run(
                    self.x_labels@,
                    Axis::Horizontal,
                    canvas_ops(canvas),
                    5 + 2 * ny,
                    u as int,
                ),
            decreases xreg.entries@.len() - u,
        {
            let ghost ops0 = canvas_ops(canvas);
            let (lab, pos) = xreg.entries[u];
            let px = to_pixel(pos);
            draw_filled_rect(&mut canvas, px as i32, 450, 1, 6, black);
            let text = label_text(lab);
            let (lw, _) = measure_text(LABEL_SCALE, font, text.as_str());
            let half: i32 = if lw <= 1_900_000 {
                ((lw as u32) / 2) as i32
            } else {
                950_000
            };
            let tx: i32 = (px as i32) - half;
            draw_text(&mut canvas, black, tx, 455, LABEL_SCALE, font, text.as_str());
            proof {
                let a = DrawOp::Rect {
                    x: px as i32,
                    y: 450,
                    width: 1u32,
                    height: 6u32,
                    color: black,
                };
                let b = DrawOp::Text { x: tx, y: 455, scale: LABEL_SCALE, text: text@, color: black };
                let opsb = canvas_ops(canvas);
                assert(opsb == ops0.push(a).push(b));
                assert forall|j: int| 0 <= j < u + 1 implies #[trigger] opsb[5 + 2 * ny + 2 * j]
                    == tick_rect(Axis::Horizontal, j, nx) && is_text_op(
                    opsb[5 + 2 * ny + 2 * j + 1],
                    decimal_of(self.x_labels@[j] as int),
                    LABEL_SCALE,
                ) by {
                    if j < u {
                        assert(opsb[5 + 2 * ny + 2 * j] == ops0.push(a)[5 + 2 * ny + 2 * j]);
                        assert(ops0.push(a)[5 + 2 * ny + 2 * j] == ops0[5 + 2 * ny + 2 * j]);
                        assert(opsb[5 + 2 * ny + 2 * j + 1] == ops0.push(a)[5 + 2 * ny + 2 * j
                            + 1]);
                        assert(ops0.push(a)[5 + 2 * ny + 2 * j + 1] == ops0[5 + 2 * ny + 2 * j
                            + 1]);
                    } else {
                        assert(5 + 2 * ny + 2 * j == ops0.len());
                        assert(opsb[5 + 2 * ny + 2 * j] == ops0.push(a)[5 + 2 * ny + 2 * j]);
                        assert(ops0.push(a)[5 + 2 * ny + 2 * j] == a);
                        assert(opsb[5 + 2 * ny + 2 * j + 1] == b);
                        assert(pos == spec_tick_pos(Axis::Horizontal, j, 400int / nx));
                        assert(px == spec_px(spec_tick_pos(Axis::Horizontal, j, 400int / nx)));
                        assert(a == tick_rect(Axis::Horizontal, j, nx));
                        assert(lab == self.x_labels@[j]);
                        assert(is_text_op(b, decimal_of(self.x_labels@[j] as int), LABEL_SCALE));
                    }
                }
            }
            u = u + 1;
        }
        // title, centered, its bottom flush with the vertical axis's top
        let (tw2, th2) = measure_text(TEXT_SCALE, font, self.title);
        let ty: i32 = if th2 <= 1_000_000 {
            50 - th2
        } else {
            50 - 1_000_000
        };
        draw_text(&mut canvas, black, centered_x(tw2), ty, TEXT_SCALE, font, self.title);
        // one filled circle per marker, radius the marker's weight
        let mut k: usize = 0;
        while k < markers.len()
            invariant
                self.data@.len() + 2 <= 400_000_000,
                markers@ == self.spec_markers(),
                forall|i: int|
                    0 <= i < markers@.len() ==> {
                        &&& -1000 <= (#[trigger] markers@[i]).0.0 <= 1000
                        &&& -1000 <= markers@[i].0.1 <= 1000
                        &&& 3 <= markers@[i].1 <= self.data@.len() + 2
                    },
                nx == self.x_labels@.len(),
                ny == self.y_labels@.len(),
                0 <= k <= markers@.len(),
                canvas_ops(canvas).len() == 6 + 2 * ny + 2 * nx + k,
                self.spec_prelude(canvas_ops(canvas)),
                spec_tick_run(self.y_labels@, Axis::Vertical, canvas_ops(canvas), 5, ny),
                spec_tick_run(self.x_labels@, Axis::Horizontal, canvas_ops(canvas), 5 + 2 * ny, nx),
                is_text_op(canvas_ops(canvas)[5 + 2 * ny + 2 * nx], self.title@, TEXT_SCALE),
                forall|i: int|
                    0 <= i < k ==> is_marker_disc(
                        #[trigger] canvas_ops(canvas)[6 + 2 * ny + 2 * nx + i],
                        markers@[i],
                        fixed_color,
                    ),
            decreases markers@.len() - k,
        {
            let ((mx, my), w) = markers[k];
            let color = match fixed_color {
                Some(c) => c,
                None => random_channels(),
            };
            draw_disc(&mut canvas, mx, my, w as i32, color);
            k = k + 1;
        }
        Ok(canvas)
    }

    /// Draw the graph: compose axis lines, ticks and tick labels, captions,
    /// title and weighted markers onto a fresh 500 by 500 canvas, each marker
    /// in an independently drawn random color. Empty data is rejected with
    /// `EmptyInput` before any canvas exists; an observation either label run
    /// fails to cover is rejected with `LabelCoverageError`. Encoding and
    /// persisting the composed canvas is the caller's business.
    pub fn draw<'f>(self, font: &rusttype::Font<'f>) -> (r: ChartResult<Canvas>)
        requires
            self.wf(),
            self.data@.len() + 2 <= 400_000_000,
            self.data@.len() >= 1 ==> self.x_labels@.len() >= 1 && self.y_labels@.len() >= 1,
        ensures
            self.data@.len() == 0 ==> r == ChartResult::<Canvas>::Err(ChartErrors::EmptyInput),
            self.data@.len() >= 1 ==> (r is Ok <==> self.spec_covered()),
            self.data@.len() >= 1 && !self.spec_covered() ==> r == ChartResult::<Canvas>::Err(
                ChartErrors::LabelCoverageError,
            ),
            r matches Ok(c) ==> self.spec_composed_trace(canvas_ops(c), None),
    {
        self.compose(font, None)
    }

    /// `draw` with every marker painted the one given color instead of a
    /// random one: two such draws of equal configurations compose identical
    /// canvases.
    pub fn draw_with_color<'f>(self, font: &rusttype::Font<'f>, color: (u8, u8, u8)) -> (r:
        ChartResult<Canvas>)
        requires
            self.wf(),
            self.data@.len() + 2 <= 400_000_000,
            self.data@.len() >= 1 ==> self.x_labels@.len() >= 1 && self.y_labels@.len() >= 1,
        ensures
            self.data@.len() == 0 ==> r == ChartResult::<Canvas>::Err(ChartErrors::EmptyInput),
            self.data@.len() >= 1 ==> (r is Ok <==> self.spec_covered()),
            self.data@.len() >= 1 && !self.spec_covered() ==> r == ChartResult::<Canvas>::Err(
                ChartErrors::LabelCoverageError,
            ),
            r matches Ok(c) ==> self.spec_composed_trace(canvas_ops(c), Some(color)),
    {
        self.compose(font, Some(color))
    }
}

} // verus!
