//! Pixel rectangles and edge-relative space partitioning.

use vstd::prelude::*;
use vstd::string::StringExecFns;
use crate::decimal::dec_digits;
use crate::decimal::dec_int;
use crate::decimal::i32_dec_str;
use crate::decimal::u64_dec_str;

verus! {

/// The view-box string of a rectangle: its position and size, separated
/// by single spaces.
pub open spec fn view_box_chars(r: Rect) -> Seq<char> {
    dec_int(r.x as int) + " "@ + dec_int(r.y as int) + " "@ + dec_digits(r.width as nat) + " "@
        + dec_digits(r.height as nat)
}

/// Edge of a rendered item
#[derive(Clone, Copy, Debug, PartialEq, Eq, Structural)]
pub enum Edge {
    /// Top edge
    Top,
    /// Left edge
    Left,
    /// Bottom edge
    Bottom,
    /// Right edge
    Right,
}

/// Rendering rectangle: an axis-aligned pixel region.
///
/// Width and height are never negative; partitioning operations saturate
/// rather than panic.
#[derive(Clone, Copy, Debug, PartialEq, Eq, Structural)]
pub struct Rect {
    /// Left edge position
    pub x: i32,
    /// Top edge position
    pub y: i32,
    /// Width in pixels
    pub width: u16,
    /// Height in pixels
    pub height: u16,
}

/// The edges of a rectangle stay within `i32` when its origin plus its
/// extent does.
pub open spec fn rect_fits(r: Rect) -> bool {
    &&& r.x + r.width <= i32::MAX
    &&& r.y + r.height <= i32::MAX
}

/// Saturating difference: `a - b`, or zero when `b` exceeds `a`.
pub open spec fn sat_sub(a: int, b: int) -> int {
    if a >= b {
        a - b
    } else {
        0
    }
}

/// Pixels actually carved from a span of `dim` by a request of `v`:
/// the full request when it fits, nothing when it does not.
pub open spec fn carve_amount(dim: int, v: int) -> int {
    if v <= dim {
        v
    } else {
        0
    }
}

/// Whether the point at `(px, py)` lies inside `r`.
pub open spec fn rect_contains(r: Rect, px: int, py: int) -> bool {
    &&& r.x <= px < r.x + r.width
    &&& r.y <= py < r.y + r.height
}

/// The result of clipping `s` horizontally to the `X` extent of `o`: the
/// vertical extent is unchanged, and disjoint extents leave a zero-width
/// rectangle at the clip position.
pub open spec fn intersect_horiz_spec(s: Rect, o: Rect) -> Rect {
    let x = if s.x >= o.x {
        s.x as int
    } else {
        o.x as int
    };
    let x2 = if s.x + s.width <= o.x + o.width {
        s.x + s.width
    } else {
        o.x + o.width
    };
    let w = if x2 >= x {
        x2 - x
    } else {
        0
    };
    Rect { x: x as i32, y: s.y, width: w as u16, height: s.height }
}

/// The result of clipping `s` vertically to the `Y` extent of `o`.
pub open spec fn intersect_vert_spec(s: Rect, o: Rect) -> Rect {
    let y = if s.y >= o.y {
        s.y as int
    } else {
        o.y as int
    };
    let y2 = if s.y + s.height <= o.y + o.height {
        s.y + s.height
    } else {
        o.y + o.height
    };
    let h = if y2 >= y {
        y2 - y
    } else {
        0
    };
    Rect { x: s.x, y: y as i32, width: s.width, height: h as u16 }
}

/// The remainder and carved strip of `Rect::split`, as a pair
/// `(remainder, carved)`.
pub open spec fn split_spec(r: Rect, edge: Edge, value: int) -> (Rect, Rect) {
    match edge {
        Edge::Top => {
            let c = carve_amount(r.height as int, value);
            (
                Rect { x: r.x, y: (r.y + c) as i32, width: r.width, height: (r.height - c) as u16 },
                Rect { x: r.x, y: r.y, width: r.width, height: c as u16 },
            )
        },
        Edge::Left => {
            let c = carve_amount(r.width as int, value);
            (
                Rect { x: (r.x + c) as i32, y: r.y, width: (r.width - c) as u16, height: r.height },
                Rect { x: r.x, y: r.y, width: c as u16, height: r.height },
            )
        },
        Edge::Bottom => {
            let c = carve_amount(r.height as int, value);
            (
                Rect { x: r.x, y: r.y, width: r.width, height: (r.height - c) as u16 },
                Rect {
                    x: r.x,
                    y: (r.y + (r.height - c)) as i32,
                    width: r.width,
                    height: c as u16,
                },
            )
        },
        Edge::Right => {
            let c = carve_amount(r.width as int, value);
            (
                Rect { x: r.x, y: r.y, width: (r.width - c) as u16, height: r.height },
                Rect {
                    x: (r.x + (r.width - c)) as i32,
                    y: r.y,
                    width: c as u16,
                    height: r.height,
                },
            )
        },
    }
}

impl Rect {
    /// Create a new rectangle
    pub fn new(x: i32, y: i32, width: u16, height: u16) -> (r: Self)
        ensures
            r == (Rect { x, y, width, height }),
    {
        Self { x, y, width, height }
    }

    /// Get value at right edge
    pub fn right(&self) -> (r: i32)
        requires
            self.x + self.width <= i32::MAX,
        ensures
            r == self.x + self.width,
    {
        self.x + self.width as i32
    }

    /// Get value at bottom edge
    pub fn bottom(&self) -> (r: i32)
        requires
            self.y + self.height <= i32::MAX,
        ensures
            r == self.y + self.height,
    {
        self.y + self.height as i32
    }

    /// Make a new rectangle inset on all edges by `value`, shrinking each
    /// dimension by twice that amount (saturating at zero).
    pub fn inset(&self, value: u16) -> (r: Self)
        requires
            self.x + value <= i32::MAX,
            self.y + value <= i32::MAX,
            2 * value <= u16::MAX,
        ensures
            r.x == self.x + value,
            r.y == self.y + value,
            r.width == sat_sub(self.width as int, 2 * value),
            r.height == sat_sub(self.height as int, 2 * value),
    {
        let vi = value as i32;
        let x = self.x + vi;
        let y = self.y + vi;
        let v2 = 2 * value;
        let width = self.width.saturating_sub(v2);
        let height = self.height.saturating_sub(v2);
        Rect::new(x, y, width, height)
    }

    /// Split off a strip of `value` pixels from an edge.
    ///
    /// Returns `(remainder, carved)`.  A request larger than the available
    /// dimension saturates to a zero-size carve, leaving the rectangle
    /// unchanged.
    pub fn split(&self, edge: Edge, value: u16) -> (r: (Self, Self))
        requires
            rect_fits(*self),
        ensures
            r == split_spec(*self, edge, value as int),
            rect_fits(r.0),
            rect_fits(r.1),
    {
        match edge {
            Edge::Top => {
                let c = if value <= self.height { value } else { 0 };
                let height = self.height - c;
                (
                    Rect::new(self.x, self.y + c as i32, self.width, height),
                    Rect::new(self.x, self.y, self.width, c),
                )
            },
            Edge::Left => {
                let c = if value <= self.width { value } else { 0 };
                let width = self.width - c;
                (
                    Rect::new(self.x + c as i32, self.y, width, self.height),
                    Rect::new(self.x, self.y, c, self.height),
                )
            },
            Edge::Bottom => {
                let c = if value <= self.height { value } else { 0 };
                let height = self.height - c;
                (
                    Rect::new(self.x, self.y, self.width, height),
                    Rect::new(self.x, self.y + height as i32, self.width, c),
                )
            },
            Edge::Right => {
                let c = if value <= self.width { value } else { 0 };
                let width = self.width - c;
                (
                    Rect::new(self.x, self.y, width, self.height),
                    Rect::new(self.x + width as i32, self.y, c, self.height),
                )
            },
        }
    }

    /// Clip this rectangle horizontally to the `X` extent of `rhs`.
    ///
    /// The vertical extent is unchanged; disjoint extents leave a
    /// zero-width rectangle at the clip position.
    pub fn intersect_horiz(&mut self, rhs: &Rect)
        requires
            rect_fits(*old(self)),
            rect_fits(*rhs),
        ensures
            *final(self) == intersect_horiz_spec(*old(self), *rhs),
            rect_fits(*final(self)),
    {
        let x = if self.x >= rhs.x { self.x } else { rhs.x };
        let sr = self.right();
        let rr = rhs.right();
        let x2 = if sr <= rr { sr } else { rr };
        self.x = x;
        self.width = if x2 >= x { (x2 - x) as u16 } else { 0 };
    }

    /// Clip this rectangle vertically to the `Y` extent of `rhs`.
    ///
    /// The horizontal extent is unchanged; disjoint extents leave a
    /// zero-height rectangle at the clip position.
    pub fn intersect_vert(&mut self, rhs: &Rect)
        requires
            rect_fits(*old(self)),
            rect_fits(*rhs),
        ensures
            *final(self) == intersect_vert_spec(*old(self), *rhs),
            rect_fits(*final(self)),
    {
        let y = if self.y >= rhs.y { self.y } else { rhs.y };
        let sb = self.bottom();
        let rb = rhs.bottom();
        let y2 = if sb <= rb { sb } else { rb };
        self.y = y;
        self.height = if y2 >= y { (y2 - y) as u16 } else { 0 };
    }
}

impl Rect {
    /// The view-box string of this rectangle
    pub fn view_box(&self) -> (r: String)
        ensures
            r@ == view_box_chars(*self),
    {
        let mut s = i32_dec_str(self.x);
        s.append(" ");
        let ys = i32_dec_str(self.y);
        s.append(ys.as_str());
        s.append(" ");
        let ws = u64_dec_str(self.width as u64);
        s.append(ws.as_str());
        s.append(" ");
        let hs = u64_dec_str(self.height as u64);
        s.append(hs.as_str());
        s
    }
}

impl Default for Rect {
    /// The zero rectangle
    fn default() -> (r: Self)
        ensures
            r == (Rect { x: 0, y: 0, width: 0, height: 0 }),
    {
        Rect { x: 0, y: 0, width: 0, height: 0 }
    }
}

/// A split carves a piece that, together with the remainder, tiles the
/// original rectangle exactly: every point of the original lies in exactly
/// one of the two, and neither reaches outside the original.
pub proof fn lemma_split_tiles(r: Rect, edge: Edge, value: int, px: int, py: int)
    requires
        rect_fits(r),
        0 <= value,
    ensures
        rect_contains(r, px, py) <==> (rect_contains(split_spec(r, edge, value).0, px, py)
            || rect_contains(split_spec(r, edge, value).1, px, py)),
        !(rect_contains(split_spec(r, edge, value).0, px, py) && rect_contains(
            split_spec(r, edge, value).1,
            px,
            py,
        )),
{
}

/// An oversized split request saturates: the carved strip is zero-size and
/// the remainder is the original rectangle.
pub proof fn lemma_split_oversized(r: Rect, edge: Edge, value: int)
    requires
        rect_fits(r),
        (edge == Edge::Top || edge == Edge::Bottom) ==> value > r.height,
        (edge == Edge::Left || edge == Edge::Right) ==> value > r.width,
    ensures
        split_spec(r, edge, value).0 == r,
        split_spec(r, edge, value).1.width * split_spec(r, edge, value).1.height == 0,
{
    let carved = split_spec(r, edge, value).1;
    match edge {
        Edge::Top | Edge::Bottom => {
            assert(carved.height == 0);
            assert(carved.width * 0 == 0);
        },
        Edge::Left | Edge::Right => {
            assert(carved.width == 0);
            assert(0 * carved.height == 0);
        },
    }
}

} // verus!
