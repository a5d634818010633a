//! Plot geometry: area paths close on the baseline, scatter paths are
//! all moves, and path text is exact.

use splot::chart::Chart;
use splot::domain::Domain;
use splot::path::{path_d, PathCmd};
use splot::plot::Plot;
use splot::point::Point;

fn unit_square_data() -> Vec<Point> {
    vec![Point::new(0, 0), Point::new(100_000_000, 100_000_000)]
}

fn chart_with(plot: Plot) -> Chart {
    let data = unit_square_data();
    Chart::new()
        .domain(Domain::from_data(&data))
        .plot(plot)
}

#[test]
fn area_path_closes_on_baseline() {
    let data = vec![
        Point::new(0, 20_000_000),
        Point::new(50_000_000, 80_000_000),
        Point::new(100_000_000, 40_000_000),
    ];
    let chart = chart_with(Plot::area(String::from("s"), data.clone()));
    let plot = &chart.plots[0];
    let cmds = plot.path_cmds();
    assert_eq!(cmds.len(), data.len() + 2);
    let baseline = plot.domain.y_map(0);
    match cmds[0] {
        PathCmd::Move(x, y) => {
            assert_eq!(x, plot.domain.x_map(data[0].x));
            assert_eq!(y, baseline);
        }
        _ => panic!("area path must begin with a move"),
    }
    match cmds[cmds.len() - 1] {
        PathCmd::Line(x, y) => {
            assert_eq!(x, plot.domain.x_map(data[data.len() - 1].x));
            assert_eq!(y, baseline);
        }
        _ => panic!("area path must end with a line"),
    }
}

#[test]
fn area_path_single_point() {
    let data = vec![Point::new(50_000_000, 80_000_000)];
    let chart = chart_with(Plot::area(String::from("s"), data));
    let plot = &chart.plots[0];
    let cmds = plot.path_cmds();
    let baseline = plot.domain.y_map(0);
    assert_eq!(cmds.len(), 3);
    assert!(matches!(cmds[0], PathCmd::Move(_, y) if y == baseline));
    assert!(matches!(cmds[2], PathCmd::Line(_, y) if y == baseline));
}

#[test]
fn scatter_path_is_all_moves() {
    let data = vec![
        Point::new(0, 0),
        Point::new(25_000_000, 50_000_000),
        Point::new(100_000_000, 100_000_000),
    ];
    let n = data.len();
    let chart = chart_with(Plot::scatter(String::from("s"), data));
    let cmds = chart.plots[0].path_cmds();
    assert_eq!(cmds.len(), n);
    let moves = cmds.iter().filter(|c| matches!(c, PathCmd::Move(..))).count();
    let lines = cmds.iter().filter(|c| matches!(c, PathCmd::Line(..))).count();
    assert_eq!(moves, n);
    assert_eq!(lines, 0);
}

#[test]
fn line_path_text() {
    let data = unit_square_data();
    let chart = Chart::new()
        .aspect_ratio(splot::chart::AspectRatio::Square)
        .domain(Domain::from_data(&data))
        .plot(Plot::line(String::from("s"), data));
    let plot = &chart.plots[0];
    let cmds = plot.path_cmds();
    let x0 = plot.domain.x_map(0);
    let y0 = plot.domain.y_map(0);
    let x1 = plot.domain.x_map(100_000_000);
    let y1 = plot.domain.y_map(100_000_000);
    let expected = format!("M{} {} {} {}", x0, y0, x1, y1);
    assert_eq!(path_d(&cmds), expected);
}

#[test]
fn scatter_path_text_repeats_moves() {
    let cmds = vec![PathCmd::Move(1, 2), PathCmd::Move(3, 4)];
    assert_eq!(path_d(&cmds), "M1 2M3 4");
    let cmds = vec![PathCmd::Move(-1, 0), PathCmd::Line(7, -8)];
    assert_eq!(path_d(&cmds), "M-1 0 7 -8");
}

#[test]
fn label_spans_mark_every_point() {
    let data = vec![Point::new(0, 0), Point::new(100_000_000, 9_500_000)];
    let chart = chart_with(Plot::line(String::from("s"), data).label());
    let plot = &chart.plots[0];
    let spans = plot.label_spans();
    assert_eq!(spans.len(), 2);
    assert_eq!(spans[0].text, "(0 0)");
    assert_eq!(spans[1].text, "(100 9.5)");
    assert_eq!(spans[1].x, Some(plot.domain.x_map(100_000_000)));
    assert_eq!(spans[1].y, Some(plot.domain.y_map(9_500_000)));
    assert_eq!(spans[1].dy, Some(-66));
}

#[test]
fn unlabelled_plot_has_no_spans() {
    let chart = chart_with(Plot::line(String::from("s"), unit_square_data()));
    assert_eq!(chart.plots[0].label_spans().len(), 0);
}
