//! Chart composition: the phase ordering of margin, titles, axes and
//! plots, and the text pieces the renderer consumes.

use splot::chart::{AspectRatio, Chart};
use splot::decimal::micros_str;
use splot::domain::Domain;
use splot::plot::Plot;
use splot::point::Point;
use splot::rect::{Edge, Rect};
use splot::text::{Anchor, Label, Text, Tick, Tspan};
use splot::title::Title;

#[test]
fn aspect_ratio_canvases() {
    assert_eq!(AspectRatio::Landscape.rect(), Rect::new(0, 0, 2000, 1500));
    assert_eq!(AspectRatio::Square.rect(), Rect::new(0, 0, 2000, 2000));
    assert_eq!(AspectRatio::Portrait.rect(), Rect::new(0, 0, 1500, 2000));
}

#[test]
fn layout_order_carves_in_sequence() {
    let chart = Chart::new();
    assert_eq!(chart.area, Rect::new(40, 40, 1920, 1420));
    let chart = chart.title(Title::new(String::from("Grand Title")));
    assert_eq!(chart.area, Rect::new(40, 140, 1920, 1320));
    assert_eq!(chart.titles[0].rect, Rect::new(40, 40, 1920, 100));
    let chart = chart.axis(String::new(), Edge::Bottom);
    assert_eq!(chart.area, Rect::new(40, 140, 1920, 1240));
    assert_eq!(chart.axes[0].rect, Rect::new(40, 1380, 1920, 80));
    // a named axis reserves a wider band
    let chart = chart.axis(String::from("Y Axis Name"), Edge::Left);
    assert_eq!(chart.area, Rect::new(200, 140, 1760, 1240));
    assert_eq!(chart.axes[1].rect, Rect::new(40, 140, 160, 1240));
}

#[test]
fn plots_bind_the_area_at_insertion() {
    let data = vec![Point::new(0, 0), Point::new(100_000_000, 100_000_000)];
    let chart = Chart::new()
        .domain(Domain::from_data(&data))
        .plot(Plot::line(String::from("a"), data.clone()))
        .plot(Plot::line(String::from("b"), data.clone()));
    assert_eq!(chart.plots[0].num, 0);
    assert_eq!(chart.plots[1].num, 1);
    assert_eq!(chart.plots[0].domain.rect, chart.area);
    assert_eq!(chart.plots[1].domain.rect, chart.area);
}

#[test]
fn marker_glyphs_cycle() {
    assert_eq!(Chart::marker_path(1), "M-1 -1h2v2h-2z");
    assert_eq!(Chart::marker_path(9), Chart::marker_path(1));
    assert_ne!(Chart::marker_path(0), Chart::marker_path(1));
}

#[test]
fn title_builders() {
    let t = Title::new(String::from("t"));
    assert_eq!(t.anchor, Anchor::Middle);
    assert_eq!(t.edge, Edge::Top);
    let t = t.at_start();
    assert_eq!(t.anchor, Anchor::Start);
    let t = t.at_end().on_edge(Edge::Left);
    assert_eq!(t.anchor, Anchor::End);
    assert_eq!(t.edge, Edge::Left);
}

#[test]
fn label_builders() {
    let l = Label::new();
    assert_eq!(l.vertical_offset(), 0);
    assert_eq!(l.above().vertical_offset(), -1);
    assert_eq!(l.below().vertical_offset(), 1);
    assert_eq!(Label::new().start().anchor, Anchor::Start);
    assert_eq!(Label::new().end().anchor, Anchor::End);
    assert_eq!(l.rounded(9_500_000), "9.5");
}

#[test]
fn anchor_keywords() {
    assert_eq!(Anchor::Start.value(), "start");
    assert_eq!(Anchor::Middle.value(), "middle");
    assert_eq!(Anchor::End.value(), "end");
}

#[test]
fn text_transform_positions() {
    let rect = Rect::new(0, 0, 100, 50);
    let t = Text::new(Edge::Left).rect(rect);
    assert_eq!(t.transform(), Some(String::from("translate(50 25) rotate(-90)")));
    let t = Text::new(Edge::Right).rect(rect);
    assert_eq!(t.transform(), Some(String::from("translate(50 25) rotate(90)")));
    let t = Text::new(Edge::Top).rect(rect).anchor(Anchor::Start);
    assert_eq!(t.transform(), Some(String::from("translate(0 25)")));
    let t = Text::new(Edge::Bottom).rect(rect).anchor(Anchor::End);
    assert_eq!(t.transform(), Some(String::from("translate(100 25)")));
    assert_eq!(Text::new(Edge::Top).transform(), None);
}

#[test]
fn tick_positions_on_rect() {
    let rect = Rect::new(100, 200, 1000, 500);
    let t = Tick::new(500_000, String::from("5"));
    // halfway along a horizontal axis
    assert_eq!(t.x(Edge::Bottom, rect, 0), 600);
    // side edges use the fixed inset
    assert_eq!(t.x(Edge::Left, rect, 28), 1072);
    assert_eq!(t.x(Edge::Right, rect, 28), 128);
    assert_eq!(t.y(Edge::Top, rect, 40), 660);
    assert_eq!(t.y(Edge::Bottom, rect, 40), 240);
    assert_eq!(t.y(Edge::Left, rect, 0), 450);
}

#[test]
fn tick_tspan_carries_label() {
    let rect = Rect::new(0, 0, 1000, 500);
    let t = Tick::new(250_000, String::from("2.5"));
    let span = t.tspan(Edge::Bottom, rect);
    assert_eq!(span.text, "2.5");
    assert_eq!(span.x, Some(250));
    assert_eq!(span.y, Some(40));
    assert_eq!(span.dy, Some(33));
}

#[test]
fn tspan_builders() {
    let span = Tspan::new(String::from("txt")).x(3).y(4).dy(-66);
    assert_eq!(span.text, "txt");
    assert_eq!(span.x, Some(3));
    assert_eq!(span.y, Some(4));
    assert_eq!(span.dy, Some(-66));
}

#[test]
fn micros_decimal_text() {
    assert_eq!(micros_str(0), "0");
    assert_eq!(micros_str(45_000_000), "45");
    assert_eq!(micros_str(9_500_000), "9.5");
    assert_eq!(micros_str(-1_250_000), "-1.25");
    assert_eq!(micros_str(123), "0.000123");
    assert_eq!(micros_str(-1), "-0.000001");
    assert_eq!(micros_str(1_000_001), "1.000001");
}
