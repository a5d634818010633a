//! Domains: axis construction, pixel mapping, affine consistency.

use splot::axis::Axis;
use splot::domain::Domain;
use splot::point::Point;
use splot::rect::{Edge, Rect};
use splot::scale::Numeric;

#[test]
fn domain_test() {
    let data = [
        Point::new(45_000_000, 150_000_000),
        Point::new(90_000_000, 200_000_000),
    ];
    let domain = Domain::from_data(&data);
    let ticks = Numeric::new(45_000_000, 90_000_000).ticks();
    assert_eq!(
        domain.axis(String::new(), Edge::Bottom),
        Axis::new(String::new(), Edge::Bottom, ticks)
    );
}

#[test]
fn vertical_axis_reads_inverted_y() {
    let data = [
        Point::new(45_000_000, 150_000_000),
        Point::new(90_000_000, 200_000_000),
    ];
    let domain = Domain::from_data(&data);
    let ticks = Numeric::new(150_000_000, 200_000_000).inverted().ticks();
    assert_eq!(
        domain.axis(String::new(), Edge::Left),
        Axis::new(String::new(), Edge::Left, ticks)
    );
}

#[test]
fn mapping_endpoints_and_midpoint() {
    let data = [Point::new(0, 0), Point::new(100_000_000, 100_000_000)];
    let domain = Domain::from_data(&data);
    let bound = domain.bind(Rect::new(0, 0, 100, 200));
    // the x scale fits 0..100 exactly
    assert_eq!(bound.x_map(0), 0);
    assert_eq!(bound.x_map(50_000_000), 50);
    assert_eq!(bound.x_map(100_000_000), 100);
    // y is inverted: larger values map to smaller pixel rows
    assert_eq!(bound.y_map(0), 200);
    assert_eq!(bound.y_map(100_000_000), 0);
    assert_eq!(bound.y_map(50_000_000), 100);
}

#[test]
fn mapping_rounds_to_nearest() {
    let data = [Point::new(0, 0), Point::new(100_000_000, 100_000_000)];
    let domain = Domain::from_data(&data);
    let bound = domain.bind(Rect::new(0, 0, 3, 3));
    // 3 * 0.5 = 1.5 rounds away from zero to 2
    assert_eq!(bound.x_map(50_000_000), 2);
}

#[test]
fn binding_two_rects_is_affine_consistent() {
    let data = [
        Point::new(13_000_000, 74_000_000),
        Point::new(111_000_000, 37_000_000),
        Point::new(125_000_000, 52_000_000),
        Point::new(190_000_000, 66_000_000),
    ];
    let domain = Domain::from_data(&data);
    let r1 = Rect::new(0, 0, 300, 100);
    let r2 = Rect::new(25, 50, 700, 300);
    let b1 = domain.bind(r1);
    let b2 = domain.bind(r2);
    for &v in data.iter() {
        let o1 = (b1.x_map(v.x) - r1.x) as i64;
        let o2 = (b2.x_map(v.x) - r2.x) as i64;
        let cross = 2 * (o1 * r2.width as i64 - o2 * r1.width as i64);
        assert!(cross.abs() <= (r1.width + r2.width) as i64);
        let o1 = (b1.y_map(v.y) - r1.y) as i64;
        let o2 = (b2.y_map(v.y) - r2.y) as i64;
        let cross = 2 * (o1 * r2.height as i64 - o2 * r1.height as i64);
        assert!(cross.abs() <= (r1.height + r2.height) as i64);
    }
}

#[test]
fn including_widens_the_domain() {
    let data = [Point::new(0, 0), Point::new(10_000_000, 10_000_000)];
    let more = [Point::new(190_000_000, 50_000_000)];
    let domain = Domain::from_data(&data).including(&more);
    let bound = domain.bind(Rect::new(0, 0, 100, 100));
    // x now spans 0..200
    assert_eq!(bound.x_map(200_000_000), 100);
    assert_eq!(bound.x_map(0), 0);
}

#[test]
fn set_x_overrides_one_axis() {
    let data = [Point::new(0, 0), Point::new(10_000_000, 10_000_000)];
    let fixed = [Point::new(0, 0), Point::new(100_000_000, 0)];
    let domain = Domain::from_data(&data).set_x(&fixed);
    let bound = domain.bind(Rect::new(0, 0, 100, 100));
    assert_eq!(bound.x_map(100_000_000), 100);
    // y still spans the original data
    assert_eq!(bound.y_map(0), 100);
    assert_eq!(bound.y_map(10_000_000), 0);
}
