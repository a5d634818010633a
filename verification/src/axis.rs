//! Axis: a tick set laid out along one edge of a chart.

use vstd::prelude::*;
use crate::num::clamp32;
use crate::num::clamp32_i64;
use crate::path::PathCmd;
use crate::rect::intersect_horiz_spec;
use crate::rect::intersect_vert_spec;
use crate::rect::rect_fits;
use crate::rect::split_spec;
use crate::rect::Edge;
use crate::rect::Rect;
use crate::text::tick_tspan_spec;
use crate::text::tick_x_spec;
use crate::text::tick_y_spec;
use crate::text::Anchor;
use crate::text::Label;
use crate::text::Tick;
use crate::text::Tspan;
use crate::text::VerticalOffset;
use crate::text::TICK_LEN;

verus! {

/// Axis for drawing tick lines and labels beside a chart's plot area.
#[derive(Debug, PartialEq)]
pub struct Axis {
    /// Edge of the plot area the axis sits on
    pub edge: Edge,
    /// Tick marks with normalized positions and label texts
    pub ticks: Vec<Tick>,
    /// Axis name
    pub name: String,
    /// Label settings
    pub label: Label,
    /// Band reserved for the axis
    pub rect: Rect,
}

/// The band width an axis reserves: wider when it carries a name.
pub open spec fn axis_space(a: Axis) -> int {
    if a.name@.len() == 0 {
        80
    } else {
        160
    }
}

/// The axis band clipped to the plot area's extent along the axis
/// direction.
pub open spec fn axis_area_rect(a: Axis, area: Rect) -> Rect {
    match a.edge {
        Edge::Top | Edge::Bottom => intersect_horiz_spec(a.rect, area),
        Edge::Left | Edge::Right => intersect_vert_spec(a.rect, area),
    }
}

/// The part of the clipped band that holds tick lines and labels, after
/// the name (when there is one) has taken the outer half.
pub open spec fn axis_inner_rect(a: Axis, area: Rect) -> Rect {
    if a.name@.len() == 0 {
        axis_area_rect(a, area)
    } else {
        split_spec(axis_area_rect(a, area), a.edge, axis_space(a) / 2).0
    }
}

/// The part of the clipped band that holds the axis name, when there is
/// one.
pub open spec fn axis_name_rect(a: Axis, area: Rect) -> Option<Rect> {
    if a.name@.len() == 0 {
        None
    } else {
        Some(split_spec(axis_area_rect(a, area), a.edge, axis_space(a) / 2).1)
    }
}

/// The grid line of tick `i` across the plot area: vertical for a
/// horizontal axis, horizontal for a vertical one.
pub open spec fn grid_cmd_at(a: Axis, area: Rect, i: int) -> (PathCmd, PathCmd) {
    let v = a.ticks@[i].value as int;
    match a.edge {
        Edge::Top | Edge::Bottom => {
            let x = tick_x_spec(v, a.edge, area, 0);
            (
                PathCmd::Move(x as i32, area.y),
                PathCmd::Line(x as i32, (area.y + area.height) as i32),
            )
        },
        Edge::Left | Edge::Right => {
            let y = tick_y_spec(v, a.edge, area, 0);
            (
                PathCmd::Move(area.x, y as i32),
                PathCmd::Line((area.x + area.width) as i32, y as i32),
            )
        },
    }
}

/// The axis baseline along the inner edge of `rect`.
pub open spec fn axis_baseline(a: Axis, rect: Rect) -> (PathCmd, PathCmd) {
    match a.edge {
        Edge::Top => (
            PathCmd::Move(rect.x, (rect.y + rect.height) as i32),
            PathCmd::Line((rect.x + rect.width) as i32, (rect.y + rect.height) as i32),
        ),
        Edge::Bottom => (
            PathCmd::Move(rect.x, rect.y),
            PathCmd::Line((rect.x + rect.width) as i32, rect.y),
        ),
        Edge::Left => (
            PathCmd::Move((rect.x + rect.width) as i32, rect.y),
            PathCmd::Line((rect.x + rect.width) as i32, (rect.y + rect.height) as i32),
        ),
        Edge::Right => (
            PathCmd::Move(rect.x, rect.y),
            PathCmd::Line(rect.x, (rect.y + rect.height) as i32),
        ),
    }
}

/// The short tick line of tick `i` on `rect`, pointing into the plot
/// area.
pub open spec fn tick_line_at(a: Axis, rect: Rect, i: int) -> (PathCmd, PathCmd) {
    let v = a.ticks@[i].value as int;
    match a.edge {
        Edge::Top | Edge::Bottom => {
            let dir: int = if a.edge == Edge::Top {
                TICK_LEN as int
            } else {
                -(TICK_LEN as int)
            };
            let x = tick_x_spec(v, a.edge, rect, TICK_LEN as int);
            let ty = tick_y_spec(v, a.edge, rect, TICK_LEN as int);
            let y2 = clamp32(ty + dir);
            let y0 = if ty <= y2 {
                ty
            } else {
                y2
            };
            let y1 = if ty >= y2 {
                ty
            } else {
                y2
            };
            (PathCmd::Move(x as i32, y0 as i32), PathCmd::Line(x as i32, y1 as i32))
        },
        Edge::Left | Edge::Right => {
            let dir: int = if a.edge == Edge::Left {
                TICK_LEN as int
            } else {
                -(TICK_LEN as int)
            };
            let tx = tick_x_spec(v, a.edge, rect, TICK_LEN as int);
            let y = tick_y_spec(v, a.edge, rect, TICK_LEN as int);
            let x2 = clamp32(tx + dir);
            let x0 = if tx <= x2 {
                tx
            } else {
                x2
            };
            let x1 = if tx >= x2 {
                tx
            } else {
                x2
            };
            (PathCmd::Move(x0 as i32, y as i32), PathCmd::Line(x1 as i32, y as i32))
        },
    }
}

impl Axis {
    /// Create a new axis
    pub fn new(name: String, edge: Edge, ticks: Vec<Tick>) -> (r: Self)
        ensures
            r.edge == edge,
            r.ticks == ticks,
            r.name == name,
            r.label == (Label { offset: VerticalOffset::At, anchor: Anchor::Middle }),
            r.rect == (Rect { x: 0, y: 0, width: 0, height: 0 }),
    {
        Self { edge, ticks, name, label: Label::new(), rect: Rect::default() }
    }

    /// The band width this axis reserves
    pub(crate) fn space(&self) -> (r: u16)
        ensures
            r == axis_space(*self),
    {
        if self.name.as_str().is_empty() {
            80
        } else {
            160
        }
    }

    /// Split this axis's band from the working area, keeping the carved
    /// band and returning the remainder.
    pub fn split(&mut self, area: Rect) -> (r: Rect)
        requires
            rect_fits(area),
        ensures
            r == split_spec(area, old(self).edge, axis_space(*old(self))).0,
            *final(self) == (Axis {
                rect: split_spec(area, old(self).edge, axis_space(*old(self))).1,
                ..*old(self)
            }),
            rect_fits(r),
            rect_fits(final(self).rect),
    {
        let space = self.space();
        let (rem, carved) = area.split(self.edge, space);
        self.rect = carved;
        rem
    }

    /// The clipped band and the name band of this axis against the final
    /// plot area: the band is trimmed to the plot area's extent, then the
    /// name (when there is one) takes the outer half.
    pub fn layout_rects(&self, area: Rect) -> (r: (Rect, Option<Rect>))
        requires
            rect_fits(self.rect),
            rect_fits(area),
        ensures
            r.0 == axis_inner_rect(*self, area),
            r.1 == axis_name_rect(*self, area),
            rect_fits(r.0),
            r.1 is Some ==> rect_fits(r.1->Some_0),
    {
        let mut rect = self.rect;
        match self.edge {
            Edge::Top | Edge::Bottom => rect.intersect_horiz(&area),
            Edge::Left | Edge::Right => rect.intersect_vert(&area),
        }
        if self.name.as_str().is_empty() {
            (rect, None)
        } else {
            let space = self.space();
            let (inner, name_rect) = rect.split(self.edge, space / 2);
            (inner, Some(name_rect))
        }
    }

    /// The grid lines of this axis across the plot area, one per tick.
    pub fn grid_cmds(&self, area: Rect) -> (r: Vec<PathCmd>)
        requires
            rect_fits(area),
        ensures
            r@.len() == 2 * self.ticks@.len(),
            forall|i: int|
                #![trigger self.ticks@[i]]
                0 <= i < self.ticks@.len() ==> r@[2 * i] == grid_cmd_at(*self, area, i).0 && r@[2
                    * i + 1] == grid_cmd_at(*self, area, i).1,
    {
        let mut out: Vec<PathCmd> = Vec::new();
        let mut i: usize = 0;
        while i < self.ticks.len()
            invariant
                i <= self.ticks@.len(),
                rect_fits(area),
                out@.len() == 2 * i,
                forall|j: int|
                    #![trigger self.ticks@[j]]
                    0 <= j < i ==> out@[2 * j] == grid_cmd_at(*self, area, j).0 && out@[2 * j + 1]
                        == grid_cmd_at(*self, area, j).1,
            decreases self.ticks@.len() - i,
        {
            let tick = &self.ticks[i];
            match self.edge {
                Edge::Top | Edge::Bottom => {
                    let x = tick.x(self.edge, area, 0);
                    out.push(PathCmd::Move(x, area.y));
                    out.push(PathCmd::Line(x, area.bottom()));
                },
                Edge::Left | Edge::Right => {
                    let y = tick.y(self.edge, area, 0);
                    out.push(PathCmd::Move(area.x, y));
                    out.push(PathCmd::Line(area.right(), y));
                },
            }
            i = i + 1;
        }
        out
    }

    /// The axis baseline and the short tick lines of this axis on `rect`.
    pub fn tick_line_cmds(&self, rect: Rect) -> (r: Vec<PathCmd>)
        requires
            rect_fits(rect),
        ensures
            r@.len() == 2 + 2 * self.ticks@.len(),
            r@[0] == axis_baseline(*self, rect).0,
            r@[1] == axis_baseline(*self, rect).1,
            forall|i: int|
                #![trigger self.ticks@[i]]
                0 <= i < self.ticks@.len() ==> r@[2 * i + 2] == tick_line_at(*self, rect, i).0
                    && r@[2 * i + 3] == tick_line_at(*self, rect, i).1,
    {
        let mut out: Vec<PathCmd> = Vec::new();
        match self.edge {
            Edge::Top => {
                out.push(PathCmd::Move(rect.x, rect.bottom()));
                out.push(PathCmd::Line(rect.right(), rect.bottom()));
            },
            Edge::Bottom => {
                out.push(PathCmd::Move(rect.x, rect.y));
                out.push(PathCmd::Line(rect.right(), rect.y));
            },
            Edge::Left => {
                out.push(PathCmd::Move(rect.right(), rect.y));
                out.push(PathCmd::Line(rect.right(), rect.bottom()));
            },
            Edge::Right => {
                out.push(PathCmd::Move(rect.x, rect.y));
                out.push(PathCmd::Line(rect.x, rect.bottom()));
            },
        }
        let mut i: usize = 0;
        while i < self.ticks.len()
            invariant
                i <= self.ticks@.len(),
                rect_fits(rect),
                out@.len() == 2 + 2 * i,
                out@[0] == axis_baseline(*self, rect).0,
                out@[1] == axis_baseline(*self, rect).1,
                forall|j: int|
                    #![trigger self.ticks@[j]]
                    0 <= j < i ==> out@[2 * j + 2] == tick_line_at(*self, rect, j).0 && out@[2 * j
                        + 3] == tick_line_at(*self, rect, j).1,
            decreases self.ticks@.len() - i,
        {
            let tick = &self.ticks[i];
            let tx = tick.x(self.edge, rect, TICK_LEN);
            let ty = tick.y(self.edge, rect, TICK_LEN);
            match self.edge {
                Edge::Top | Edge::Bottom => {
                    let dir: i64 = if matches!(self.edge, Edge::Top) {
                        TICK_LEN as i64
                    } else {
                        -(TICK_LEN as i64)
                    };
                    let y2 = clamp32_i64(ty as i64 + dir);
                    let y0 = if ty <= y2 {
                        ty
                    } else {
                        y2
                    };
                    let y1 = if ty >= y2 {
                        ty
                    } else {
                        y2
                    };
                    out.push(PathCmd::Move(tx, y0));
                    out.push(PathCmd::Line(tx, y1));
                },
                Edge::Left | Edge::Right => {
                    let dir: i64 = if matches!(self.edge, Edge::Left) {
                        TICK_LEN as i64
                    } else {
                        -(TICK_LEN as i64)
                    };
                    let x2 = clamp32_i64(tx as i64 + dir);
                    let x0 = if tx <= x2 {
                        tx
                    } else {
                        x2
                    };
                    let x1 = if tx >= x2 {
                        tx
                    } else {
                        x2
                    };
                    out.push(PathCmd::Move(x0, ty));
                    out.push(PathCmd::Line(x1, ty));
                },
            }
            i = i + 1;
        }
        out
    }

    /// The text spans labelling this axis's ticks on `rect`.
    pub fn label_spans(&self, rect: Rect) -> (r: Vec<Tspan>)
        ensures
            r@.len() == self.ticks@.len(),
            forall|i: int|
                #![trigger r@[i]]
                0 <= i < self.ticks@.len() ==> r@[i] == tick_tspan_spec(
                    self.ticks@[i],
                    self.edge,
                    rect,
                ),
    {
        let mut out: Vec<Tspan> = Vec::new();
        let mut i: usize = 0;
        while i < self.ticks.len()
            invariant
                i <= self.ticks@.len(),
                out@.len() == i,
                forall|j: int|
                    #![trigger out@[j]]
                    0 <= j < i ==> out@[j] == tick_tspan_spec(self.ticks@[j], self.edge, rect),
            decreases self.ticks@.len() - i,
        {
            let span = self.ticks[i].tspan(self.edge, rect);
            out.push(span);
            i = i + 1;
        }
        out
    }

    /// The anchor for this axis's tick labels: side-axis labels anchor
    /// against the axis, others center.
    pub fn label_anchor(&self) -> (r: Anchor)
        ensures
            r == match self.edge {
                Edge::Left => Anchor::End,
                Edge::Right => Anchor::Start,
                _ => Anchor::Middle,
            },
    {
        match self.edge {
            Edge::Left => Anchor::End,
            Edge::Right => Anchor::Start,
            _ => Anchor::Middle,
        }
    }
}

} // verus!
