//! Tests of the builder surface and the color helpers.

use ferrischart::charts::scatter::ScatterGraph;
use ferrischart::charts::{random_rgb, random_rgba};
use ferrischart::error::ChartErrors;
use ferrischart::fixed::Fixed;

#[test]
fn load_data_generates_covering_labels() {
    let data = vec![
        (Fixed::from_milli(2300), Fixed::from_milli(1100)),
        (Fixed::from_milli(5700), Fixed::from_milli(6900)),
    ];
    let graph = ScatterGraph::build().load_data(data).unwrap();
    assert_eq!(graph.x_labels, vec![2, 3, 4, 5, 6]);
    assert_eq!(graph.y_labels, vec![1, 2, 3, 4, 5, 6, 7]);
    assert_eq!(graph.data.len(), 2);
}

#[test]
fn load_data_identical_values_single_label() {
    let data = vec![(Fixed::from_int(4), Fixed::from_int(4))];
    let graph = ScatterGraph::build().load_data(data).unwrap();
    assert_eq!(graph.x_labels, vec![4]);
    assert_eq!(graph.y_labels, vec![4]);
    // a single-label axis still lays out: the one marker sits at the axis
    // midpoints, pixel (250, 250)
    let markers = graph.compute_markers().unwrap();
    assert_eq!(markers, vec![((250, 250), 3)]);
}

#[test]
fn load_data_empty_rejected() {
    let data: Vec<(Fixed, Fixed)> = vec![];
    let r = ScatterGraph::build().load_data(data);
    assert!(matches!(r, Err(ChartErrors::EmptyInput)));
}

#[test]
fn load_data_then_markers_always_covered() {
    // labels generated from the data always cover it, so drawing never
    // reports a coverage error
    let data = vec![
        (Fixed::from_milli(1499), Fixed::from_milli(-2750)),
        (Fixed::from_milli(8999), Fixed::from_milli(6001)),
        (Fixed::from_milli(1499), Fixed::from_milli(-2750)),
    ];
    let graph = ScatterGraph::build().load_data(data).unwrap();
    let markers = graph.compute_markers().unwrap();
    assert_eq!(markers.len(), 2);
    assert_eq!(markers[0].1, 4);
    assert_eq!(markers[1].1, 3);
}

#[test]
fn setters_assign_their_fields() {
    let graph = ScatterGraph::build()
        .set_title("GCSE vs IB Grades")
        .set_axis_text("GCSE Grades", "IB Grades")
        .set_labels(vec![1, 2, 3], vec![4, 5, 6]);
    assert_eq!(graph.title, "GCSE vs IB Grades");
    assert_eq!(graph.x_axis_text, "GCSE Grades");
    assert_eq!(graph.y_axis_text, "IB Grades");
    assert_eq!(graph.x_labels, vec![1, 2, 3]);
    assert_eq!(graph.y_labels, vec![4, 5, 6]);
    assert!(graph.data.is_empty());
}

#[test]
fn default_builder_is_empty() {
    let graph = ScatterGraph::build();
    assert_eq!(graph.title, "unset");
    assert_eq!(graph.x_axis_text, "unset");
    assert_eq!(graph.y_axis_text, "unset");
    assert!(graph.x_labels.is_empty());
    assert!(graph.y_labels.is_empty());
    assert!(graph.data.is_empty());
}

#[test]
fn random_colors_stay_in_channel_range() {
    // each channel is drawn from 0..255, so 255 itself never appears
    let mut i: usize = 0;
    while i < 100 {
        let rgb = random_rgb();
        assert!(rgb.0[0] < 255 && rgb.0[1] < 255 && rgb.0[2] < 255);
        let rgba = random_rgba(7);
        assert!(rgba.0[0] < 255 && rgba.0[1] < 255 && rgba.0[2] < 255);
        assert_eq!(rgba.0[3], 7);
        i += 1;
    }
}
