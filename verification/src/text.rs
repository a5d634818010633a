//! Text layout: anchors, labels, tick marks and text spans.
//!
//! Only the geometry and the exact strings are computed here; turning them
//! into document elements is the renderer's business.

use vstd::prelude::*;
use vstd::string::StringExecFns;
use crate::decimal::dec_int;
use crate::decimal::dec_micros;
use crate::decimal::i32_dec_str;
use crate::decimal::micros_str;
use crate::num::clamp32;
use crate::num::clamp32_i64;
use crate::num::map_round;
use crate::num::round_div;
use crate::point::Point;
use crate::rect::rect_fits;
use crate::rect::Edge;
use crate::rect::Rect;

verus! {

/// Tick line length in pixels.
pub const TICK_LEN: i32 = 20;

/// Horizontal offset for tick labels.
pub const TICK_HLEN: i32 = TICK_LEN + 8;

/// Vertical offset for tick labels.
pub const TICK_VLEN: i32 = TICK_LEN * 2;

/// Vertical offset relative to a point, in whole line heights.
#[derive(Clone, Copy, Debug, PartialEq, Eq, Structural)]
pub enum VerticalOffset {
    /// Label below point
    Below,
    /// Label at point
    At,
    /// Label above point
    Above,
}

/// Text anchor
#[derive(Clone, Copy, Debug, PartialEq, Eq, Structural)]
pub enum Anchor {
    /// Anchor at start of text
    Start,
    /// Anchor at middle of text
    Middle,
    /// Anchor at end of text
    End,
}

/// Chart label settings for plotted points.
#[derive(Clone, Copy, Debug, PartialEq, Eq)]
pub struct Label {
    /// Vertical offset of the label relative to its point
    pub offset: VerticalOffset,
    /// Anchor of the label text
    pub anchor: Anchor,
}

/// Text element settings: which edge it belongs to, how it is anchored,
/// and where it goes.
#[derive(Clone, Debug)]
pub struct Text {
    /// Edge the text belongs to
    pub edge: Edge,
    /// Text anchor
    pub anchor: Anchor,
    /// Rectangle the text is laid out in
    pub rect: Option<Rect>,
    /// Baseline offset in hundredths of an `em`
    pub dy: Option<i32>,
    /// Style class name
    pub class_name: Option<String>,
}

/// Text span: a piece of text with an optional position and baseline
/// offset (in hundredths of an `em`).
#[derive(Clone, Debug, PartialEq)]
pub struct Tspan {
    /// The text
    pub text: String,
    /// `X` position
    pub x: Option<i32>,
    /// `Y` position
    pub y: Option<i32>,
    /// Baseline offset in hundredths of an `em`
    pub dy: Option<i32>,
}

/// Tick mark for axis labels: a normalized position (in millionths) along
/// the axis, and the label text.
#[derive(Clone, Debug, PartialEq)]
pub struct Tick {
    /// Normalized position along the axis, in millionths
    pub value: i64,
    /// Label text
    pub text: String,
}

impl Anchor {
    /// The anchor keyword
    pub fn value(self) -> (r: &'static str)
        ensures
            self == Anchor::Start ==> r@ == "start"@,
            self == Anchor::Middle ==> r@ == "middle"@,
            self == Anchor::End ==> r@ == "end"@,
    {
        match self {
            Anchor::Start => "start",
            Anchor::Middle => "middle",
            Anchor::End => "end",
        }
    }
}

impl Default for Label {
    /// A label at its point, anchored at the middle
    fn default() -> (r: Self)
        ensures
            r == (Label { offset: VerticalOffset::At, anchor: Anchor::Middle }),
    {
        Label { offset: VerticalOffset::At, anchor: Anchor::Middle }
    }
}

/// The text placed beside a labelled point: its coordinates in
/// parentheses.
pub open spec fn point_label(pt: Point) -> Seq<char> {
    "("@ + dec_micros(pt.x as int) + " "@ + dec_micros(pt.y as int) + ")"@
}

impl Label {
    /// Create a new label
    pub fn new() -> (r: Self)
        ensures
            r == (Label { offset: VerticalOffset::At, anchor: Anchor::Middle }),
    {
        Self::default()
    }

    /// Get the vertical offset in line heights
    pub fn vertical_offset(&self) -> (r: i32)
        ensures
            r == match self.offset {
                VerticalOffset::Above => -1,
                VerticalOffset::At => 0,
                VerticalOffset::Below => 1,
            },
    {
        match self.offset {
            VerticalOffset::Above => -1,
            VerticalOffset::At => 0,
            VerticalOffset::Below => 1,
        }
    }

    /// Make label above
    pub fn above(self) -> (r: Self)
        ensures
            r == (Label { offset: VerticalOffset::Above, ..self }),
    {
        Label { offset: VerticalOffset::Above, ..self }
    }

    /// Make label below
    pub fn below(self) -> (r: Self)
        ensures
            r == (Label { offset: VerticalOffset::Below, ..self }),
    {
        Label { offset: VerticalOffset::Below, ..self }
    }

    /// Set anchor to start
    pub fn start(self) -> (r: Self)
        ensures
            r == (Label { anchor: Anchor::Start, ..self }),
    {
        Label { anchor: Anchor::Start, ..self }
    }

    /// Set anchor to end
    pub fn end(self) -> (r: Self)
        ensures
            r == (Label { anchor: Anchor::End, ..self }),
    {
        Label { anchor: Anchor::End, ..self }
    }

    /// The exact decimal form of a micro-unit value
    pub fn rounded(&self, value: i64) -> (s: String)
        requires
            value > i64::MIN,
        ensures
            s@ == dec_micros(value as int),
    {
        micros_str(value)
    }

    /// The text span labelling point `pt` at pixel position `(x, y)`
    pub fn span_at(&self, x: i32, y: i32, pt: Point) -> (r: Tspan)
        requires
            pt.x > i64::MIN,
            pt.y > i64::MIN,
        ensures
            r.text@ == point_label(pt),
            r.x == Some(x),
            r.y == Some(y),
            r.dy == Some(-66i32),
    {
        let mut s = "(".to_owned();
        let xs = micros_str(pt.x);
        let ys = micros_str(pt.y);
        s.append(xs.as_str());
        s.append(" ");
        s.append(ys.as_str());
        s.append(")");
        Tspan { text: s, x: Some(x), y: Some(y), dy: Some(-66) }
    }
}

/// The `X` translation of a text element laid out in `rect`.
pub open spec fn text_tx(edge: Edge, anchor: Anchor, rect: Rect) -> int {
    match (edge, anchor) {
        (Edge::Top, Anchor::Start) | (Edge::Bottom, Anchor::Start) => rect.x as int,
        (Edge::Top, Anchor::End) | (Edge::Bottom, Anchor::End) => rect.x + rect.width,
        _ => rect.x + rect.width as int / 2,
    }
}

/// The `Y` translation of a text element laid out in `rect`.
pub open spec fn text_ty(edge: Edge, anchor: Anchor, rect: Rect) -> int {
    match (edge, anchor) {
        (Edge::Left, Anchor::End) | (Edge::Right, Anchor::Start) => rect.y as int,
        (Edge::Left, Anchor::Start) | (Edge::Right, Anchor::End) => rect.y + rect.height,
        _ => rect.y + rect.height as int / 2,
    }
}

/// The rotation suffix of a text transform: side text reads bottom-up on
/// the left and top-down on the right.
pub open spec fn rotate_suffix(edge: Edge) -> Seq<char> {
    match edge {
        Edge::Left => " rotate(-90)"@,
        Edge::Right => " rotate(90)"@,
        _ => Seq::<char>::empty(),
    }
}

/// The transform string of a text element laid out in `rect`.
pub open spec fn transform_spec(edge: Edge, anchor: Anchor, rect: Rect) -> Seq<char> {
    "translate("@ + dec_int(text_tx(edge, anchor, rect)) + " "@ + dec_int(
        text_ty(edge, anchor, rect),
    ) + ")"@ + rotate_suffix(edge)
}

impl Text {
    /// Create a new text element
    pub fn new(edge: Edge) -> (r: Self)
        ensures
            r.edge == edge,
            r.anchor == Anchor::Middle,
            r.rect is None,
            r.dy is None,
            r.class_name is None,
    {
        Text { edge, anchor: Anchor::Middle, rect: None, dy: None, class_name: None }
    }

    /// Set anchor position
    pub fn anchor(self, anchor: Anchor) -> (r: Self)
        ensures
            r == (Text { anchor, ..self }),
    {
        Text { anchor, ..self }
    }

    /// Set the baseline offset, in hundredths of an `em`
    pub fn dy(self, dy: i32) -> (r: Self)
        ensures
            r == (Text { dy: Some(dy), ..self }),
    {
        Text { dy: Some(dy), ..self }
    }

    /// Set rectangle
    pub fn rect(self, rect: Rect) -> (r: Self)
        ensures
            r == (Text { rect: Some(rect), ..self }),
    {
        Text { rect: Some(rect), ..self }
    }

    /// Set class name
    pub fn class_name(self, class_name: String) -> (r: Self)
        ensures
            r == (Text { class_name: Some(class_name), ..self }),
    {
        Text { class_name: Some(class_name), ..self }
    }

    /// Get the transform string positioning this text in its rectangle,
    /// or `None` when it has no rectangle.
    pub fn transform(&self) -> (r: Option<String>)
        requires
            self.rect is Some ==> rect_fits(self.rect->Some_0),
        ensures
            self.rect is None ==> r is None,
            self.rect is Some ==> r is Some && r->Some_0@ == transform_spec(
                self.edge,
                self.anchor,
                self.rect->Some_0,
            ),
    {
        let rect = match &self.rect {
            Some(rect) => *rect,
            None => {
                return None;
            },
        };
        let tx: i32 = match (self.edge, self.anchor) {
            (Edge::Top, Anchor::Start) | (Edge::Bottom, Anchor::Start) => rect.x,
            (Edge::Top, Anchor::End) | (Edge::Bottom, Anchor::End) => rect.x + rect.width as i32,
            _ => rect.x + (rect.width / 2) as i32,
        };
        let ty: i32 = match (self.edge, self.anchor) {
            (Edge::Left, Anchor::End) | (Edge::Right, Anchor::Start) => rect.y,
            (Edge::Left, Anchor::Start) | (Edge::Right, Anchor::End) => rect.y + rect.height as i32,
            _ => rect.y + (rect.height / 2) as i32,
        };
        let mut s = "translate(".to_owned();
        let txs = i32_dec_str(tx);
        let tys = i32_dec_str(ty);
        s.append(txs.as_str());
        s.append(" ");
        s.append(tys.as_str());
        s.append(")");
        match self.edge {
            Edge::Left => s.append(" rotate(-90)"),
            Edge::Right => s.append(" rotate(90)"),
            _ => (),
        }
        Some(s)
    }
}

impl Tspan {
    /// Create a new text span
    pub fn new(text: String) -> (r: Self)
        ensures
            r.text == text,
            r.x is None,
            r.y is None,
            r.dy is None,
    {
        Tspan { text, x: None, y: None, dy: None }
    }

    /// Set `X`
    pub fn x(self, x: i32) -> (r: Self)
        ensures
            r == (Tspan { x: Some(x), ..self }),
    {
        Tspan { x: Some(x), ..self }
    }

    /// Set `Y`
    pub fn y(self, y: i32) -> (r: Self)
        ensures
            r == (Tspan { y: Some(y), ..self }),
    {
        Tspan { y: Some(y), ..self }
    }

    /// Set the baseline offset, in hundredths of an `em`
    pub fn dy(self, dy: i32) -> (r: Self)
        ensures
            r == (Tspan { dy: Some(dy), ..self }),
    {
        Tspan { dy: Some(dy), ..self }
    }
}

/// A normalized position times a pixel extent stays far inside `i128`.
proof fn lemma_norm_product_bound(value: int, extent: int)
    requires
        i64::MIN <= value <= i64::MAX,
        0 <= extent <= u16::MAX,
    ensures
        -(i128::MAX / 4) <= value * extent <= i128::MAX / 4,
{
    assert(-(i128::MAX / 4) <= value * extent <= i128::MAX / 4) by (nonlinear_arith)
        requires
            i64::MIN <= value <= i64::MAX,
            0 <= extent <= u16::MAX,
    ;
}

/// The pixel `X` position of a tick on `rect`: a fixed inset on the side
/// edges, the normalized position along the width otherwise.
pub open spec fn tick_x_spec(value: int, edge: Edge, rect: Rect, len: int) -> int {
    match edge {
        Edge::Left => clamp32(rect.x + rect.width - len),
        Edge::Right => clamp32(rect.x + len),
        _ => clamp32(rect.x + round_div(value * rect.width, 1_000_000)),
    }
}

/// The pixel `Y` position of a tick on `rect`: a fixed inset on the top
/// and bottom edges, the normalized position along the height otherwise.
pub open spec fn tick_y_spec(value: int, edge: Edge, rect: Rect, len: int) -> int {
    match edge {
        Edge::Top => clamp32(rect.y + rect.height - len),
        Edge::Bottom => clamp32(rect.y + len),
        _ => clamp32(rect.y + round_div(value * rect.height, 1_000_000)),
    }
}

/// The text span labelling tick `t` on `rect`: the label text at the
/// tick's pixel position, dropped a third of a line below the baseline.
pub open spec fn tick_tspan_spec(t: Tick, edge: Edge, rect: Rect) -> Tspan {
    Tspan {
        text: t.text,
        x: Some(tick_x_spec(t.value as int, edge, rect, TICK_HLEN as int) as i32),
        y: Some(tick_y_spec(t.value as int, edge, rect, TICK_VLEN as int) as i32),
        dy: Some(33i32),
    }
}

impl Tick {
    /// Create a new tick at a normalized position (in millionths)
    pub fn new(value: i64, text: String) -> (r: Self)
        ensures
            r.value == value,
            r.text == text,
    {
        Tick { value, text }
    }

    /// Get text
    pub fn text(&self) -> (r: &str)
        ensures
            r@ == self.text@,
    {
        self.text.as_str()
    }

    /// Get the pixel `X` position on `rect`
    pub fn x(&self, edge: Edge, rect: Rect, len: i32) -> (r: i32)
        ensures
            r == tick_x_spec(self.value as int, edge, rect, len as int),
    {
        match edge {
            Edge::Left => clamp32_i64(rect.x as i64 + rect.width as i64 - len as i64),
            Edge::Right => clamp32_i64(rect.x as i64 + len as i64),
            _ => {
                proof {
                    lemma_norm_product_bound(self.value as int, rect.width as int);
                }
                map_round(rect.x, self.value as i128 * rect.width as i128, 1_000_000)
            },
        }
    }

    /// Get the pixel `Y` position on `rect`
    pub fn y(&self, edge: Edge, rect: Rect, len: i32) -> (r: i32)
        ensures
            r == tick_y_spec(self.value as int, edge, rect, len as int),
    {
        match edge {
            Edge::Top => clamp32_i64(rect.y as i64 + rect.height as i64 - len as i64),
            Edge::Bottom => clamp32_i64(rect.y as i64 + len as i64),
            _ => {
                proof {
                    lemma_norm_product_bound(self.value as int, rect.height as int);
                }
                map_round(rect.y, self.value as i128 * rect.height as i128, 1_000_000)
            },
        }
    }

    /// Make the text span labelling this tick on `rect`
    pub fn tspan(&self, edge: Edge, rect: Rect) -> (r: Tspan)
        ensures
            r == tick_tspan_spec(*self, edge, rect),
    {
        let x = self.x(edge, rect, TICK_HLEN);
        let y = self.y(edge, rect, TICK_VLEN);
        Tspan::new(self.text.clone()).x(x).y(y).dy(33)
    }
}

} // verus!
