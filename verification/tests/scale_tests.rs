//! Scale fitting: nice tick spacings, containing ranges, normalization.
//!
//! Data values are in micro-units: `1_000_000` is one.

use splot::point::Point;
use splot::scale::{Numeric, Scale};

#[test]
fn scale_test() {
    assert_eq!(Numeric::new(0, 10_000_000).tick_spacing(), 1_000_000);
    assert_eq!(Numeric::new(9_500_000, 10_000_000).tick_spacing(), 100_000);
    assert_eq!(Numeric::new(0, 25_000_000).tick_spacing(), 5_000_000);
    assert_eq!(Numeric::new(0, 30_000_000).tick_spacing(), 5_000_000);
    assert_eq!(Numeric::new(0, 40_000_000).tick_spacing(), 5_000_000);
    assert_eq!(Numeric::new(0, 50_000_000).tick_spacing(), 10_000_000);
    assert_eq!(Numeric::new(0, 75_000_000).tick_spacing(), 10_000_000);
    assert_eq!(Numeric::new(0, 100_000_000).tick_spacing(), 10_000_000);
    assert_eq!(Numeric::new(0, 1_000_000).tick_spacing(), 100_000);
    assert_eq!(Numeric::new(0, 1_500_000).tick_spacing(), 250_000);
    assert_eq!(Numeric::new(0, 2_000_000).tick_spacing(), 250_000);
    assert_eq!(Numeric::new(0, 100_000).tick_spacing(), 10_000);
    assert_eq!(Numeric::new(0, 100_000).tick_spacing(), 10_000);
}

#[test]
fn two_pass_spacing_sample() {
    // The sample range 13..190 fits to 0..200 with a spacing of 25.
    let s = Numeric::new(13_000_000, 190_000_000);
    assert_eq!(s.tick_spacing(), 25_000_000);
    assert_eq!(s.start, 0);
    assert_eq!(s.stop, 200_000_000);
}

#[test]
fn fitted_range_contains_data() {
    let cases = [
        (13_000_000i64, 190_000_000i64),
        (-7_300_000, 4_100_000),
        (9_500_000, 10_000_000),
        (1, 12_345_678),
        (-100, 100),
    ];
    for &(min, max) in cases.iter() {
        let s = Numeric::new(min, max);
        assert!(s.start <= min);
        assert!(s.stop >= max);
        if s.spacing > 0 {
            assert_eq!(s.start % s.spacing, 0);
            assert_eq!(s.stop % s.spacing, 0);
        }
    }
}

#[test]
fn negative_range_fits() {
    let s = Numeric::new(-50_000_000, 50_000_000);
    assert_eq!(s.tick_spacing(), 25_000_000);
    assert_eq!(s.start, -50_000_000);
    assert_eq!(s.stop, 50_000_000);
    let ticks = s.ticks();
    let texts: Vec<&str> = ticks.iter().map(|t| t.text()).collect();
    assert_eq!(texts, ["-50", "-25", "0", "25", "50"]);
}

#[test]
fn normalize_endpoints() {
    let s = Numeric::new(13_000_000, 190_000_000);
    assert_eq!(s.normalize(s.start), 0);
    assert_eq!(s.normalize(s.stop), 1_000_000);
    let inv = s.inverted();
    assert_eq!(inv.normalize(inv.start), 1_000_000);
    assert_eq!(inv.normalize(inv.stop), 0);
}

#[test]
fn normalize_midpoint_and_degenerate() {
    let s = Numeric::new(0, 100_000_000);
    assert_eq!(s.normalize(50_000_000), 500_000);
    // a span too narrow to resolve maps everything to the center
    let d = Numeric::new(5, 5);
    assert_eq!(d.normalize(123), 500_000);
    assert_eq!(d.tick_spacing(), 0);
}

#[test]
fn ticks_walk_the_range() {
    let s = Numeric::new(0, 1_000_000);
    let ticks = s.ticks();
    assert_eq!(ticks.len(), 11);
    assert_eq!(ticks[0].text(), "0");
    assert_eq!(ticks[1].text(), "0.1");
    assert_eq!(ticks[5].text(), "0.5");
    assert_eq!(ticks[10].text(), "1");
    assert_eq!(ticks[0].value, 0);
    assert_eq!(ticks[10].value, 1_000_000);
    // inverted scales walk downward from the stop
    let ticks = s.inverted().ticks();
    assert_eq!(ticks.len(), 11);
    assert_eq!(ticks[0].text(), "1");
    assert_eq!(ticks[10].text(), "0");
    assert_eq!(ticks[0].value, 0);
    assert_eq!(ticks[10].value, 1_000_000);
}

#[test]
fn degenerate_scale_has_no_ticks() {
    let s = Numeric::new(42, 42);
    assert_eq!(s.ticks().len(), 0);
}

#[test]
fn union_refits_combined_range() {
    let a = Numeric::new(0, 10_000_000);
    let b = Numeric::new(180_000_000, 190_000_000);
    let u = a.union(b);
    assert!(u.start <= a.start);
    assert!(u.stop >= b.stop);
    assert_eq!(u.tick_spacing(), 25_000_000);
    assert_eq!(u.start, 0);
    assert_eq!(u.stop, 200_000_000);
}

#[test]
fn from_data_picks_coordinate() {
    let data = [
        Point::new(13_000_000, 74_000_000),
        Point::new(111_000_000, 37_000_000),
        Point::new(125_000_000, 52_000_000),
        Point::new(190_000_000, 66_000_000),
    ];
    let Scale::Numeric(x) = Scale::from_data(&data, false);
    assert_eq!(x.tick_spacing(), 25_000_000);
    assert_eq!(x.start, 0);
    assert_eq!(x.stop, 200_000_000);
    let Scale::Numeric(y) = Scale::from_data(&data, true);
    assert!(y.start <= 37_000_000);
    assert!(y.stop >= 74_000_000);
}

#[test]
fn from_data_empty_is_unit_scale() {
    let data: [Point; 0] = [];
    let Scale::Numeric(s) = Scale::from_data(&data, false);
    assert_eq!(s.start, 0);
    assert_eq!(s.stop, 1_000_000);
    assert_eq!(s.tick_spacing(), 100_000);
}
