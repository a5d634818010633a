//! Axis geometry: band splitting, grid lines, tick lines and labels.

use splot::axis::Axis;
use splot::path::PathCmd;
use splot::rect::{Edge, Rect};
use splot::scale::Numeric;
use splot::text::Anchor;

fn bottom_axis() -> Axis {
    Axis::new(String::new(), Edge::Bottom, Numeric::new(0, 100_000_000).ticks())
}

#[test]
fn split_reserves_band() {
    let mut axis = bottom_axis();
    let rem = axis.split(Rect::new(0, 0, 1000, 500));
    assert_eq!(rem, Rect::new(0, 0, 1000, 420));
    assert_eq!(axis.rect, Rect::new(0, 420, 1000, 80));
    // a named axis reserves twice the band
    let mut axis = Axis::new(String::from("name"), Edge::Left, Vec::new());
    let rem = axis.split(Rect::new(0, 0, 1000, 500));
    assert_eq!(rem, Rect::new(160, 0, 840, 500));
    assert_eq!(axis.rect, Rect::new(0, 0, 160, 500));
}

#[test]
fn grid_lines_cross_the_plot_area() {
    let axis = bottom_axis();
    let area = Rect::new(0, 0, 1000, 420);
    let cmds = axis.grid_cmds(area);
    assert_eq!(cmds.len(), 22);
    assert_eq!(cmds[0], PathCmd::Move(0, 0));
    assert_eq!(cmds[1], PathCmd::Line(0, 420));
    assert_eq!(cmds[6], PathCmd::Move(300, 0));
    assert_eq!(cmds[7], PathCmd::Line(300, 420));
    assert_eq!(cmds[20], PathCmd::Move(1000, 0));
    assert_eq!(cmds[21], PathCmd::Line(1000, 420));
}

#[test]
fn tick_lines_point_into_the_plot() {
    let axis = bottom_axis();
    let rect = Rect::new(0, 420, 1000, 80);
    let cmds = axis.tick_line_cmds(rect);
    assert_eq!(cmds.len(), 2 + 22);
    // the baseline runs along the plot edge
    assert_eq!(cmds[0], PathCmd::Move(0, 420));
    assert_eq!(cmds[1], PathCmd::Line(1000, 420));
    // each tick line rises from the baseline into the band
    assert_eq!(cmds[2], PathCmd::Move(0, 420));
    assert_eq!(cmds[3], PathCmd::Line(0, 440));
    assert_eq!(cmds[12], PathCmd::Move(500, 420));
    assert_eq!(cmds[13], PathCmd::Line(500, 440));
}

#[test]
fn layout_clips_to_the_plot_area() {
    let mut axis = bottom_axis();
    let _ = axis.split(Rect::new(0, 0, 1000, 500));
    // a later split narrowed the plot area; the band follows it
    let area = Rect::new(160, 0, 840, 420);
    let (inner, name_rect) = axis.layout_rects(area);
    assert_eq!(inner, Rect::new(160, 420, 840, 80));
    assert_eq!(name_rect, None);
    // a named axis gives the outer half of its band to the name
    let mut axis = Axis::new(String::from("name"), Edge::Bottom, Vec::new());
    let _ = axis.split(Rect::new(0, 0, 1000, 500));
    let (inner, name_rect) = axis.layout_rects(Rect::new(0, 0, 1000, 340));
    assert_eq!(inner, Rect::new(0, 340, 1000, 80));
    assert_eq!(name_rect, Some(Rect::new(0, 420, 1000, 80)));
}

#[test]
fn label_spans_and_anchor() {
    let axis = bottom_axis();
    let rect = Rect::new(0, 420, 1000, 80);
    let spans = axis.label_spans(rect);
    assert_eq!(spans.len(), 11);
    assert_eq!(spans[0].text, "0");
    assert_eq!(spans[10].text, "100");
    assert_eq!(spans[5].x, Some(500));
    assert_eq!(spans[5].y, Some(460));
    assert_eq!(axis.label_anchor(), Anchor::Middle);
    let left = Axis::new(String::new(), Edge::Left, Vec::new());
    assert_eq!(left.label_anchor(), Anchor::End);
    let right = Axis::new(String::new(), Edge::Right, Vec::new());
    assert_eq!(right.label_anchor(), Anchor::Start);
}
