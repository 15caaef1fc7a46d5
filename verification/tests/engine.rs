//! Tests of the layout-and-projection engine on concrete values.

use ferrischart::aggregate::{aggregate, BASE_WEIGHT};
use ferrischart::axis::{build_registry, Axis};
use ferrischart::charts::scatter::ScatterGraph;
use ferrischart::error::ChartErrors;
use ferrischart::fixed::Fixed;
use ferrischart::labels::generate_labels;
use ferrischart::project::{project, project_points};

fn fx(milli: i64) -> Fixed {
    Fixed::from_milli(milli)
}

#[test]
fn fixed_floor_ceil_frac() {
    assert_eq!(fx(2500).floor(), 2);
    assert_eq!(fx(2500).ceil(), 3);
    assert_eq!(fx(2500).frac_milli(), 500);
    assert_eq!(fx(-1500).floor(), -2);
    assert_eq!(fx(-1500).ceil(), -1);
    assert_eq!(fx(-1500).frac_milli(), 500);
    let whole = Fixed::from_int(3);
    assert_eq!(whole.milli, 3000);
    assert_eq!(whole.floor(), 3);
    assert_eq!(whole.ceil(), 3);
    assert_eq!(whole.frac_milli(), 0);
}

#[test]
fn labels_cover_extent() {
    // floor(2.3) = 2, ceil(5.7) = 6: every whole number in between, unit-spaced
    let values = vec![fx(2300), fx(5700)];
    assert_eq!(generate_labels(&values), Ok(vec![2, 3, 4, 5, 6]));
}

#[test]
fn labels_negative_extent() {
    // floor(-2.5) = -3, ceil(0.3) = 1
    let values = vec![fx(-2500), fx(300)];
    assert_eq!(generate_labels(&values), Ok(vec![-3, -2, -1, 0, 1]));
}

#[test]
fn labels_identical_data_single_label() {
    // low == high: exactly one label
    let values = vec![fx(4000), fx(4000)];
    assert_eq!(generate_labels(&values), Ok(vec![4]));
}

#[test]
fn labels_empty_input_rejected() {
    let values: Vec<Fixed> = vec![];
    assert_eq!(generate_labels(&values), Err(ChartErrors::EmptyInput));
}

#[test]
fn single_label_axis_tick_at_midpoint() {
    // one label: the whole 400-pixel span is its slice and the tick sits at
    // the axis midpoint, pixel 250, on either axis
    let horizontal = build_registry(&vec![5], Axis::Horizontal);
    assert_eq!(horizontal.step, 400);
    assert_eq!(horizontal.lookup(5), Some(250_000));
    let vertical = build_registry(&vec![5], Axis::Vertical);
    assert_eq!(vertical.step, 400);
    assert_eq!(vertical.lookup(5), Some(250_000));
}

#[test]
fn registry_positions_walk_the_axis() {
    // nine labels: step = 400 / 9 = 44 whole pixels, ticks centered per slice
    let reg = build_registry(&vec![1, 2, 3, 4, 5, 6, 7, 8, 9], Axis::Horizontal);
    assert_eq!(reg.step, 44);
    assert_eq!(reg.lookup(1), Some(72_000));
    assert_eq!(reg.lookup(5), Some(248_000));
    assert_eq!(reg.lookup(9), Some(424_000));
    assert_eq!(reg.lookup(10), None);
    // seven labels on the vertical axis: step = 400 / 7 = 57, walking upward
    let reg = build_registry(&vec![1, 2, 3, 4, 5, 6, 7], Axis::Vertical);
    assert_eq!(reg.step, 57);
    assert_eq!(reg.lookup(2), Some(364_500));
    assert_eq!(reg.lookup(4), Some(250_500));
}

#[test]
fn exact_label_projects_to_its_tick() {
    // a value exactly on a label takes that label's registered position
    let reg = build_registry(&vec![1, 2, 3, 4, 5, 6, 7, 8, 9], Axis::Horizontal);
    assert_eq!(project(&reg, Fixed::from_int(5)), Ok(248_000));
    assert_eq!(project(&reg, Fixed::from_int(5)), Ok(reg.lookup(5).unwrap()));
}

#[test]
fn maximum_label_projects_exactly() {
    // the boundary: a value equal to the greatest label is an exact match,
    // not an interpolation
    let reg = build_registry(&vec![1, 2, 3, 4, 5, 6, 7, 8, 9], Axis::Horizontal);
    assert_eq!(project(&reg, Fixed::from_int(9)), Ok(reg.lookup(9).unwrap()));
    assert_eq!(project(&reg, Fixed::from_int(9)), Ok(424_000));
}

#[test]
fn fractional_value_interpolates_within_slice() {
    // x = 2.5 against labels 1..=9: base is label 2's tick, offset by half
    // the 44-pixel slice: 116_000 + 22_000
    let reg = build_registry(&vec![1, 2, 3, 4, 5, 6, 7, 8, 9], Axis::Horizontal);
    assert_eq!(project(&reg, fx(2500)), Ok(138_000));
    // on the vertical axis the offset moves up: 364_500 - 28_500
    let reg = build_registry(&vec![1, 2, 3, 4, 5, 6, 7], Axis::Vertical);
    assert_eq!(project(&reg, fx(2500)), Ok(336_000));
}

#[test]
fn uncovered_floor_is_a_coverage_error() {
    let reg = build_registry(&vec![1, 2, 3], Axis::Horizontal);
    assert_eq!(project(&reg, fx(5500)), Err(ChartErrors::LabelCoverageError));
    assert_eq!(project(&reg, Fixed::from_int(7)), Err(ChartErrors::LabelCoverageError));
}

#[test]
fn projection_truncates_to_whole_pixels() {
    let xreg = build_registry(&vec![1, 2, 3, 4, 5, 6, 7, 8, 9], Axis::Horizontal);
    let yreg = build_registry(&vec![1, 2, 3, 4, 5, 6, 7], Axis::Vertical);
    let data = vec![(Fixed::from_int(1), Fixed::from_int(2))];
    let pts = project_points(&xreg, &yreg, &data).unwrap();
    assert_eq!(pts, vec![(72, 364)]);
}

#[test]
fn off_axis_projection_truncates_toward_zero() {
    // a value just above a single-label vertical axis's label projects above
    // the axis: 250_000 - 400 * 901 = -110_400 milli-pixels, truncated toward
    // zero to pixel -110
    let xreg = build_registry(&vec![9], Axis::Horizontal);
    let yreg = build_registry(&vec![9], Axis::Vertical);
    assert_eq!(project(&yreg, fx(9901)), Ok(-110_400));
    let data = vec![(Fixed::from_int(9), fx(9901))];
    let pts = project_points(&xreg, &yreg, &data).unwrap();
    assert_eq!(pts, vec![(250, -110)]);
}

#[test]
fn aggregation_weights_duplicates() {
    let points = vec![(10, 10), (10, 10), (20, 20)];
    let markers = aggregate(&points);
    assert_eq!(markers, vec![((10, 10), BASE_WEIGHT + 1), ((20, 20), BASE_WEIGHT)]);
}

#[test]
fn duplicate_points_collapse_into_weighted_markers() {
    // data [(1.0, 2.0), (1.0, 2.0), (5.0, 4.0)] against labels {1..9} x {1..7}:
    // exactly two markers, one of weight base+1 at the pixel of (1.0, 2.0)
    // and one of weight base at the pixel of (5.0, 4.0)
    let mut graph = ScatterGraph::build()
        .set_labels(vec![1, 2, 3, 4, 5, 6, 7, 8, 9], vec![1, 2, 3, 4, 5, 6, 7]);
    graph.data = vec![
        (Fixed::from_int(1), Fixed::from_int(2)),
        (Fixed::from_int(1), Fixed::from_int(2)),
        (Fixed::from_int(5), Fixed::from_int(4)),
    ];
    let markers = graph.compute_markers().unwrap();
    assert_eq!(markers.len(), 2);
    assert_eq!(markers[0], ((72, 364), BASE_WEIGHT + 1));
    assert_eq!(markers[1], ((248, 250), BASE_WEIGHT));
}

#[test]
fn two_points_two_markers_at_tick_positions() {
    // labels x in {1..9}, y in {1..7}, data [(1, 2), (5, 4)]: two distinct
    // markers at the mapper's tick coordinates, each at the base weight
    let mut graph = ScatterGraph::build()
        .set_labels(vec![1, 2, 3, 4, 5, 6, 7, 8, 9], vec![1, 2, 3, 4, 5, 6, 7]);
    graph.data = vec![
        (Fixed::from_int(1), Fixed::from_int(2)),
        (Fixed::from_int(5), Fixed::from_int(4)),
    ];
    let markers = graph.compute_markers().unwrap();
    let xreg = build_registry(&vec![1, 2, 3, 4, 5, 6, 7, 8, 9], Axis::Horizontal);
    let yreg = build_registry(&vec![1, 2, 3, 4, 5, 6, 7], Axis::Vertical);
    assert_eq!(
        markers,
        vec![
            (
                ((xreg.lookup(1).unwrap() / 1000) as i32, (yreg.lookup(2).unwrap() / 1000) as i32),
                BASE_WEIGHT
            ),
            (
                ((xreg.lookup(5).unwrap() / 1000) as i32, (yreg.lookup(4).unwrap() / 1000) as i32),
                BASE_WEIGHT
            ),
        ]
    );
    assert_ne!(markers[0].0, markers[1].0);
}

#[test]
fn layout_is_deterministic() {
    // two identical configurations place identical markers; only marker
    // colors may differ between two draws
    let make = || {
        let mut graph = ScatterGraph::build()
            .set_labels(vec![1, 2, 3, 4, 5, 6, 7, 8, 9], vec![1, 2, 3, 4, 5, 6, 7]);
        graph.data = vec![
            (fx(1500), fx(2250)),
            (Fixed::from_int(5), Fixed::from_int(4)),
            (fx(1500), fx(2250)),
        ];
        graph
    };
    let first = make().compute_markers().unwrap();
    let second = make().compute_markers().unwrap();
    assert_eq!(first, second);
}

#[test]
fn empty_data_rejected_before_any_work() {
    let graph = ScatterGraph::build().set_labels(vec![1, 2, 3], vec![1, 2, 3]);
    assert_eq!(graph.compute_markers(), Err(ChartErrors::EmptyInput));
}

#[test]
fn uncovered_data_rejected_as_coverage_error() {
    let mut graph = ScatterGraph::build().set_labels(vec![1, 2, 3], vec![1, 2, 3]);
    graph.data = vec![(Fixed::from_int(9), Fixed::from_int(1))];
    assert_eq!(graph.compute_markers(), Err(ChartErrors::LabelCoverageError));
}
