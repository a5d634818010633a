//! Data domain in two dimensions, and its binding to pixel space.

use vstd::prelude::*;
use crate::axis::Axis;
use crate::decimal::dec_micros;
use crate::num::clamp32;
use crate::num::lemma_round_div_bounds;
use crate::num::MICRO;
use crate::num::map_round;
use crate::num::round_div;
use crate::point::Point;
use crate::rect::Edge;
use crate::rect::Rect;
use crate::scale::fitted_spec;
use crate::scale::is_fitted;
use crate::scale::max_coord;
use crate::scale::min_coord;
use crate::scale::normalize_spec;
use crate::scale::point_bounded;
use crate::scale::scale_num;
use crate::scale::scale_wf;
use crate::scale::tick_value_at;
use crate::scale::Numeric;
use crate::scale::Scale;
use crate::scale::VAL_LIMIT;
use crate::text::Anchor;
use crate::text::Label;
use crate::text::VerticalOffset;

verus! {

/// Data domain in two dimensions
///
/// The scales are:
///
/// - `X`, abscissa (horizontal)
/// - `Y`, ordinate (vertical)
#[derive(Clone, Copy, Debug)]
pub struct Domain {
    /// Horizontal scale
    pub x_scale: Scale,
    /// Vertical scale
    pub y_scale: Scale,
}

/// Domain bound to a rectangle
#[derive(Clone, Copy, Debug)]
pub struct BoundDomain {
    /// The data domain
    pub domain: Domain,
    /// The pixel rectangle it is bound to
    pub rect: Rect,
}

/// The lesser of two values.
pub open spec fn lo2(a: int, b: int) -> int {
    if a <= b {
        a
    } else {
        b
    }
}

/// The greater of two values.
pub open spec fn hi2(a: int, b: int) -> int {
    if a >= b {
        a
    } else {
        b
    }
}

/// What widening scale `s` to cover the fit of `min..max` yields: the
/// combined range, refitted.
pub open spec fn widened_spec(s: Numeric, min: int, max: int) -> Numeric {
    let f = fitted_spec(min, max);
    fitted_spec(lo2(s.start as int, f.start as int), hi2(s.stop as int, f.stop as int))
}

/// Both scales of the domain are well-formed.
pub open spec fn domain_wf(d: Domain) -> bool {
    &&& scale_wf(scale_num(d.x_scale))
    &&& scale_wf(scale_num(d.y_scale))
}

/// The scale an axis on `edge` reads its ticks from: the `X` scale for
/// horizontal edges, the `Y` scale inverted for vertical ones (screen `Y`
/// grows downward).
pub open spec fn axis_scale(d: Domain, edge: Edge) -> Numeric {
    match edge {
        Edge::Bottom | Edge::Top => scale_num(d.x_scale),
        Edge::Left | Edge::Right => Numeric {
            inverted: !scale_num(d.y_scale).inverted,
            ..scale_num(d.y_scale)
        },
    }
}

/// The pixel position of value `v` mapped through scale `s` onto the band
/// from `origin` spanning `extent`: the origin plus the scale's exact
/// proportion of the extent, rounded to the nearest pixel and clamped to
/// `i32`.  A degenerate single-value domain maps to the center.
pub open spec fn map_spec(s: Numeric, origin: int, extent: int, v: int) -> int {
    let den = s.stop - s.start;
    if den == 0 {
        clamp32(origin + round_div(extent, 2))
    } else {
        let num = if s.inverted {
            s.stop - v
        } else {
            v - s.start
        };
        clamp32(origin + round_div(extent * num, den))
    }
}

/// The pixel `X` position of data value `v` under the bound domain `b`.
pub open spec fn x_map_spec(b: BoundDomain, v: int) -> int {
    map_spec(scale_num(b.domain.x_scale), b.rect.x as int, b.rect.width as int, v)
}

/// The pixel `Y` position of data value `v` under the bound domain `b`:
/// the `Y` scale is used inverted, so larger values map to smaller rows.
pub open spec fn y_map_spec(b: BoundDomain, v: int) -> int {
    map_spec(
        (Numeric {
            inverted: !scale_num(b.domain.y_scale).inverted,
            ..scale_num(b.domain.y_scale)
        }),
        b.rect.y as int,
        b.rect.height as int,
        v,
    )
}

/// What `Domain::axis` builds for `name` on `edge`: an axis whose ticks
/// are exactly the ticks of the scale that edge reads, normalized
/// positions and label texts included.
pub open spec fn is_axis_for(a: Axis, d: Domain, name: Seq<char>, edge: Edge) -> bool {
    let s = axis_scale(d, edge);
    &&& a.edge == edge
    &&& a.name@ == name
    &&& (s.spacing == 0 ==> a.ticks@.len() == 0)
    &&& (s.spacing > 0 ==> a.ticks@.len() == (s.stop - s.start) / (s.spacing as int) + 1)
    &&& forall|i: int|
        #![trigger a.ticks@[i]]
        0 <= i < a.ticks@.len() ==> a.ticks@[i].value == normalize_spec(s, tick_value_at(s, i))
            && a.ticks@[i].text@ == dec_micros(tick_value_at(s, i))
}

impl Default for Domain {
    /// A domain with both scales fitted to the unit range
    fn default() -> (r: Self)
        ensures
            domain_wf(r),
            is_fitted(scale_num(r.x_scale), 0, MICRO as int),
            is_fitted(scale_num(r.y_scale), 0, MICRO as int),
    {
        Domain { x_scale: Scale::default(), y_scale: Scale::default() }
    }
}

impl Default for BoundDomain {
    /// The default domain bound to the zero rectangle
    fn default() -> (r: Self)
        ensures
            domain_wf(r.domain),
            r.rect == (Rect { x: 0, y: 0, width: 0, height: 0 }),
    {
        BoundDomain { domain: Domain::default(), rect: Rect::default() }
    }
}

impl Domain {
    /// Create a domain from a set of points
    pub fn from_data(data: &[Point]) -> (r: Self)
        requires
            forall|i: int| 0 <= i < data@.len() ==> point_bounded(#[trigger] data@[i]),
        ensures
            domain_wf(r),
            data@.len() == 0 ==> is_fitted(scale_num(r.x_scale), 0, MICRO as int) && is_fitted(
                scale_num(r.y_scale),
                0,
                MICRO as int,
            ),
            data@.len() > 0 ==> is_fitted(
                scale_num(r.x_scale),
                min_coord(data@, false),
                max_coord(data@, false),
            ) && is_fitted(scale_num(r.y_scale), min_coord(data@, true), max_coord(data@, true)),
    {
        let x_scale = Scale::from_data(data, false);
        let y_scale = Scale::from_data(data, true);
        Domain { x_scale, y_scale }
    }

    /// Adjust domain to include a set of points
    pub fn including(self, data: &[Point]) -> (r: Self)
        requires
            domain_wf(self),
            forall|i: int| 0 <= i < data@.len() ==> point_bounded(#[trigger] data@[i]),
            -VAL_LIMIT <= scale_num(self.x_scale).start && scale_num(self.x_scale).stop
                <= VAL_LIMIT,
            -VAL_LIMIT <= scale_num(self.y_scale).start && scale_num(self.y_scale).stop
                <= VAL_LIMIT,
        ensures
            domain_wf(r),
            data@.len() == 0 ==> scale_num(r.x_scale) == widened_spec(
                scale_num(self.x_scale),
                0,
                MICRO as int,
            ) && scale_num(r.y_scale) == widened_spec(scale_num(self.y_scale), 0, MICRO as int),
            data@.len() > 0 ==> scale_num(r.x_scale) == widened_spec(
                scale_num(self.x_scale),
                min_coord(data@, false),
                max_coord(data@, false),
            ) && scale_num(r.y_scale) == widened_spec(
                scale_num(self.y_scale),
                min_coord(data@, true),
                max_coord(data@, true),
            ),
    {
        let x_scale = self.x_scale.union(Scale::from_data(data, false));
        let y_scale = self.y_scale.union(Scale::from_data(data, true));
        Domain { x_scale, y_scale }
    }

    /// Set `X` domain to a set of points
    pub fn set_x(self, data: &[Point]) -> (r: Self)
        requires
            forall|i: int| 0 <= i < data@.len() ==> point_bounded(#[trigger] data@[i]),
        ensures
            scale_wf(scale_num(r.x_scale)),
            r.y_scale == self.y_scale,
            data@.len() > 0 ==> is_fitted(
                scale_num(r.x_scale),
                min_coord(data@, false),
                max_coord(data@, false),
            ),
    {
        Domain { x_scale: Scale::from_data(data, false), y_scale: self.y_scale }
    }

    /// Set `Y` domain to a set of points
    pub fn set_y(self, data: &[Point]) -> (r: Self)
        requires
            forall|i: int| 0 <= i < data@.len() ==> point_bounded(#[trigger] data@[i]),
        ensures
            scale_wf(scale_num(r.y_scale)),
            r.x_scale == self.x_scale,
            data@.len() > 0 ==> is_fitted(
                scale_num(r.y_scale),
                min_coord(data@, true),
                max_coord(data@, true),
            ),
    {
        Domain { x_scale: self.x_scale, y_scale: Scale::from_data(data, true) }
    }

    /// Get the axis on one edge: horizontal edges read ticks from the `X`
    /// scale, vertical edges from the inverted `Y` scale.
    pub fn axis(&self, name: String, edge: Edge) -> (r: Axis)
        requires
            domain_wf(*self),
        ensures
            r.name == name,
            r.rect == (Rect { x: 0, y: 0, width: 0, height: 0 }),
            r.label == (Label { offset: VerticalOffset::At, anchor: Anchor::Middle }),
            is_axis_for(r, *self, name@, edge),
    {
        match edge {
            Edge::Bottom | Edge::Top => Axis::new(name, edge, self.x_scale.ticks()),
            Edge::Left | Edge::Right => Axis::new(name, edge, self.y_scale.inverted().ticks()),
        }
    }

    /// Bind domain to a rectangle
    pub fn bind(&self, rect: Rect) -> (r: BoundDomain)
        ensures
            r.domain == *self,
            r.rect == rect,
    {
        BoundDomain { domain: *self, rect }
    }
}

impl BoundDomain {
    /// Map an `X` value to its pixel position in the bound rectangle.
    pub fn x_map(&self, x: i64) -> (r: i32)
        requires
            domain_wf(self.domain),
        ensures
            r == x_map_spec(*self, x as int),
    {
        let s = match &self.domain.x_scale {
            Scale::Numeric(n) => *n,
        };
        Self::map_value(s, self.rect.x, self.rect.width, x)
    }

    /// Map a `Y` value to its pixel position in the bound rectangle.  The
    /// `Y` scale is used inverted: larger data values map to smaller
    /// pixel rows.
    pub fn y_map(&self, y: i64) -> (r: i32)
        requires
            domain_wf(self.domain),
        ensures
            r == y_map_spec(*self, y as int),
    {
        let s = match &self.domain.y_scale {
            Scale::Numeric(n) => n.inverted(),
        };
        Self::map_value(s, self.rect.y, self.rect.height, y)
    }

    /// Map `v` through scale `s` onto the band from `origin` spanning
    /// `extent`.  Only the range of `s` matters for well-formedness, not
    /// its direction, so a scale flipped for the `Y` axis is accepted.
    fn map_value(s: Numeric, origin: i32, extent: u16, v: i64) -> (r: i32)
        requires
            scale_wf(Numeric { inverted: false, ..s }),
        ensures
            r == map_spec(s, origin as int, extent as int, v as int),
    {
        let den = s.stop - s.start;
        if den == 0 {
            map_round(origin, extent as i128, 2)
        } else {
            let num: i128 = if s.inverted {
                s.stop as i128 - v as i128
            } else {
                v as i128 - s.start as i128
            };
            proof {
                assert(-(i128::MAX / 4) <= extent as int * num <= i128::MAX / 4)
                    by (nonlinear_arith)
                    requires
                        0 <= extent <= u16::MAX,
                        2 * (i64::MIN as int) <= num <= 2 * (i64::MAX as int),
                ;
            }
            map_round(origin, extent as i128 * num, den)
        }
    }
}

/// Binding one domain to two rectangles keeps the mapped offsets
/// proportional to the rectangle extents: the cross products of the two
/// offsets with the opposite extents agree to within the half-pixel
/// rounding slack.
pub proof fn lemma_map_proportional(s: Numeric, w1: int, w2: int, v: int)
    requires
        s.stop > s.start,
        w1 >= 0,
        w2 >= 0,
    ensures
        ({
            let den = s.stop - s.start;
            let num = if s.inverted {
                s.stop - v
            } else {
                v - s.start
            };
            let o1 = round_div(w1 * num, den);
            let o2 = round_div(w2 * num, den);
            -(w1 + w2) <= 2 * (o1 * w2 - o2 * w1) <= w1 + w2
        }),
{
    let den = s.stop - s.start;
    let num = if s.inverted {
        s.stop - v
    } else {
        v - s.start
    };
    let o1 = round_div(w1 * num, den);
    let o2 = round_div(w2 * num, den);
    lemma_round_div_bounds(w1 * num, den);
    lemma_round_div_bounds(w2 * num, den);
    let e1 = 2 * (o1 * den - w1 * num);
    let e2 = 2 * (o2 * den - w2 * num);
    assert(2 * (o1 * w2 - o2 * w1) * den == e1 * w2 - e2 * w1) by (nonlinear_arith)
        requires
            e1 == 2 * (o1 * den - w1 * num),
            e2 == 2 * (o2 * den - w2 * num),
    ;
    assert(-(den * (w1 + w2)) <= e1 * w2 - e2 * w1 <= den * (w1 + w2)) by (nonlinear_arith)
        requires
            -den <= e1 <= den,
            -den <= e2 <= den,
            w1 >= 0,
            w2 >= 0,
    ;
    assert(-(w1 + w2) <= 2 * (o1 * w2 - o2 * w1) <= w1 + w2) by (nonlinear_arith)
        requires
            -(den * (w1 + w2)) <= 2 * (o1 * w2 - o2 * w1) * den <= den * (w1 + w2),
            den > 0,
    ;
}

/// Binding the same domain to two rectangles and mapping the same value:
/// as long as neither result clamps, the vertical pixel offsets from the
/// two rectangles' origins scale proportionally with the rectangle
/// heights, to within the half-pixel rounding slack on each side.
pub proof fn lemma_y_map_affine(d: Domain, r1: Rect, r2: Rect, v: int)
    requires
        domain_wf(d),
        scale_num(d.y_scale).stop > scale_num(d.y_scale).start,
        ({
            let s = scale_num(d.y_scale);
            let den = s.stop - s.start;
            let num = if s.inverted {
                v - s.start
            } else {
                s.stop - v
            };
            &&& i32::MIN <= r1.y + round_div(r1.height * num, den) <= i32::MAX
            &&& i32::MIN <= r2.y + round_div(r2.height * num, den) <= i32::MAX
        }),
    ensures
        ({
            let b1 = BoundDomain { domain: d, rect: r1 };
            let b2 = BoundDomain { domain: d, rect: r2 };
            let y1 = y_map_spec(b1, v);
            let y2 = y_map_spec(b2, v);
            let c = 2 * ((y1 - r1.y) * r2.height - (y2 - r2.y) * r1.height);
            -(r1.height + r2.height) <= c <= r1.height + r2.height
        }),
{
    let s = scale_num(d.y_scale);
    let flipped = Numeric { inverted: !s.inverted, ..s };
    lemma_map_proportional(flipped, r1.height as int, r2.height as int, v);
}

/// Binding the same domain to two rectangles and mapping the same value:
/// as long as neither result clamps, the pixel offsets from the two
/// rectangles' origins scale proportionally with the rectangle widths, to
/// within the half-pixel rounding slack on each side.
pub proof fn lemma_x_map_affine(d: Domain, r1: Rect, r2: Rect, v: int)
    requires
        domain_wf(d),
        !scale_num(d.x_scale).inverted,
        scale_num(d.x_scale).stop > scale_num(d.x_scale).start,
        ({
            let s = scale_num(d.x_scale);
            let den = s.stop - s.start;
            let num = v - s.start;
            &&& i32::MIN <= r1.x + round_div(r1.width * num, den) <= i32::MAX
            &&& i32::MIN <= r2.x + round_div(r2.width * num, den) <= i32::MAX
        }),
    ensures
        ({
            let b1 = BoundDomain { domain: d, rect: r1 };
            let b2 = BoundDomain { domain: d, rect: r2 };
            let x1 = x_map_spec(b1, v);
            let x2 = x_map_spec(b2, v);
            let c = 2 * ((x1 - r1.x) * r2.width - (x2 - r2.x) * r1.width);
            -(r1.width + r2.width) <= c <= r1.width + r2.width
        }),
{
    let s = scale_num(d.x_scale);
    lemma_map_proportional(s, r1.width as int, r2.width as int, v);
}

} // verus!
