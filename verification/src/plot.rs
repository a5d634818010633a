//! Plot geometry: turning a bound domain and a data series into a path.

use vstd::prelude::*;
use crate::domain::domain_wf;
use crate::domain::x_map_spec;
use crate::domain::y_map_spec;
use crate::domain::BoundDomain;
use crate::path::line_count;
use crate::path::move_count;
use crate::path::PathCmd;
use crate::point::Point;
use crate::text::Label;
use crate::text::point_label;
use crate::text::Anchor;
use crate::text::Tspan;
use crate::text::VerticalOffset;

verus! {

/// Plot Type
#[derive(Clone, Copy, Debug, PartialEq, Eq, Structural)]
pub enum PlotType {
    /// Stacked area plot
    Area,
    /// Line plot
    Line,
    /// Scatter plot
    Scatter,
}

/// Plot for rendering one data series.
#[derive(Clone, Debug)]
pub struct Plot {
    /// Plot type
    pub plot_tp: PlotType,
    /// Values name
    pub name: String,
    /// Number within chart
    pub num: u32,
    /// Domain bound to rectangle
    pub domain: BoundDomain,
    /// Data values
    pub data: Vec<Point>,
    /// Label settings
    pub label: Option<Label>,
}

/// The pixel `X` position of the plot's `i`-th data point.
pub open spec fn pt_x(p: Plot, i: int) -> int {
    x_map_spec(p.domain, p.data@[i].x as int)
}

/// The pixel `Y` position of the plot's `i`-th data point.
pub open spec fn pt_y(p: Plot, i: int) -> int {
    y_map_spec(p.domain, p.data@[i].y as int)
}

/// The pixel `Y` position of the zero baseline under the plot's domain.
pub open spec fn base_y(p: Plot) -> int {
    y_map_spec(p.domain, 0)
}

/// A sequence whose commands are all moves holds that many move commands
/// and no line commands.
proof fn lemma_all_moves(s: Seq<PathCmd>)
    requires
        forall|i: int| 0 <= i < s.len() ==> (#[trigger] s[i]) is Move,
    ensures
        move_count(s) == s.len(),
        line_count(s) == 0,
    decreases s.len(),
{
    reveal(Seq::filter);
    if s.len() > 0 {
        lemma_all_moves(s.drop_last());
    }
}

impl Plot {
    /// Create new plot
    fn new(tp: PlotType, name: String, data: Vec<Point>) -> (r: Self)
        ensures
            r.plot_tp == tp,
            r.name == name,
            r.num == 0,
            domain_wf(r.domain.domain),
            r.domain.rect == (crate::rect::Rect { x: 0, y: 0, width: 0, height: 0 }),
            r.data == data,
            r.label is None,
    {
        Plot {
            plot_tp: tp,
            name,
            num: 0,
            domain: BoundDomain::default(),
            data,
            label: None,
        }
    }

    /// Create a new area plot
    pub fn area(name: String, data: Vec<Point>) -> (r: Self)
        ensures
            r.plot_tp == PlotType::Area,
            r.name == name,
            r.num == 0,
            domain_wf(r.domain.domain),
            r.data == data,
            r.label is None,
    {
        Plot::new(PlotType::Area, name, data)
    }

    /// Create a new line plot
    pub fn line(name: String, data: Vec<Point>) -> (r: Self)
        ensures
            r.plot_tp == PlotType::Line,
            r.name == name,
            r.num == 0,
            domain_wf(r.domain.domain),
            r.data == data,
            r.label is None,
    {
        Plot::new(PlotType::Line, name, data)
    }

    /// Create a new scatter plot
    pub fn scatter(name: String, data: Vec<Point>) -> (r: Self)
        ensures
            r.plot_tp == PlotType::Scatter,
            r.name == name,
            r.num == 0,
            domain_wf(r.domain.domain),
            r.data == data,
            r.label is None,
    {
        Plot::new(PlotType::Scatter, name, data)
    }

    /// Get plot name
    pub fn name(&self) -> (r: &str)
        ensures
            r@ == self.name@,
    {
        self.name.as_str()
    }

    /// Add labels to plot
    pub fn label(self) -> (r: Self)
        ensures
            r == (Plot {
                label: Some(Label { offset: VerticalOffset::At, anchor: Anchor::Middle }),
                ..self
            }),
    {
        Plot { label: Some(Label::new()), ..self }
    }

    /// The path of this plot's data through its bound domain.
    ///
    /// - A line plot is one subpath through all mapped points.
    /// - An area plot walks the mapped points between two closing
    ///   vertices on the zero baseline, under the first and last point's
    ///   `X`; it always begins and ends on the baseline.
    /// - A scatter plot makes every point its own zero-length subpath:
    ///   one move per point and no lines at all.
    pub fn path_cmds(&self) -> (r: Vec<PathCmd>)
        requires
            domain_wf(self.domain.domain),
        ensures
            self.plot_tp == PlotType::Line ==> r@.len() == self.data@.len() && (forall|i: int|
                #![trigger r@[i]]
                0 <= i < r@.len() ==> r@[i] == (if i == 0 {
                    PathCmd::Move(pt_x(*self, i) as i32, pt_y(*self, i) as i32)
                } else {
                    PathCmd::Line(pt_x(*self, i) as i32, pt_y(*self, i) as i32)
                })),
            self.plot_tp == PlotType::Scatter ==> r@.len() == self.data@.len() && (forall|i: int|
                #![trigger r@[i]]
                0 <= i < r@.len() ==> r@[i] == PathCmd::Move(
                    pt_x(*self, i) as i32,
                    pt_y(*self, i) as i32,
                )) && move_count(r@) == self.data@.len() && line_count(r@) == 0,
            self.plot_tp == PlotType::Area && self.data@.len() == 0 ==> r@.len() == 0,
            self.plot_tp == PlotType::Area && self.data@.len() > 0 ==> r@.len() == self.data@.len()
                + 2 && r@[0] == PathCmd::Move(pt_x(*self, 0) as i32, base_y(*self) as i32)
                && r@[r@.len() - 1] == PathCmd::Line(
                pt_x(*self, self.data@.len() - 1) as i32,
                base_y(*self) as i32,
            ) && (forall|i: int|
                #![trigger self.data@[i]]
                0 <= i < self.data@.len() ==> r@[i + 1] == PathCmd::Line(
                    pt_x(*self, i) as i32,
                    pt_y(*self, i) as i32,
                )),
    {
        let mut out: Vec<PathCmd> = Vec::new();
        match self.plot_tp {
            PlotType::Area => {
                if self.data.len() == 0 {
                    return out;
                }
                let x0 = self.domain.x_map(self.data[0].x);
                let yb = self.domain.y_map(0);
                out.push(PathCmd::Move(x0, yb));
                let mut i: usize = 0;
                while i < self.data.len()
                    invariant
                        domain_wf(self.domain.domain),
                        self.data@.len() > 0,
                        i <= self.data@.len(),
                        out@.len() == i + 1,
                        out@[0] == PathCmd::Move(pt_x(*self, 0) as i32, base_y(*self) as i32),
                        forall|j: int|
                            #![trigger self.data@[j]]
                            0 <= j < i ==> out@[j + 1] == PathCmd::Line(
                                pt_x(*self, j) as i32,
                                pt_y(*self, j) as i32,
                            ),
                    decreases self.data@.len() - i,
                {
                    let x = self.domain.x_map(self.data[i].x);
                    let y = self.domain.y_map(self.data[i].y);
                    out.push(PathCmd::Line(x, y));
                    i = i + 1;
                }
                let xn = self.domain.x_map(self.data[self.data.len() - 1].x);
                out.push(PathCmd::Line(xn, yb));
            },
            PlotType::Line => {
                let mut i: usize = 0;
                while i < self.data.len()
                    invariant
                        domain_wf(self.domain.domain),
                        i <= self.data@.len(),
                        out@.len() == i,
                        forall|j: int|
                            #![trigger out@[j]]
                            0 <= j < i ==> out@[j] == (if j == 0 {
                                PathCmd::Move(pt_x(*self, j) as i32, pt_y(*self, j) as i32)
                            } else {
                                PathCmd::Line(pt_x(*self, j) as i32, pt_y(*self, j) as i32)
                            }),
                    decreases self.data@.len() - i,
                {
                    let x = self.domain.x_map(self.data[i].x);
                    let y = self.domain.y_map(self.data[i].y);
                    if i == 0 {
                        out.push(PathCmd::Move(x, y));
                    } else {
                        out.push(PathCmd::Line(x, y));
                    }
                    i = i + 1;
                }
            },
            PlotType::Scatter => {
                let mut i: usize = 0;
                while i < self.data.len()
                    invariant
                        domain_wf(self.domain.domain),
                        i <= self.data@.len(),
                        out@.len() == i,
                        forall|j: int|
                            #![trigger out@[j]]
                            0 <= j < i ==> out@[j] == PathCmd::Move(
                                pt_x(*self, j) as i32,
                                pt_y(*self, j) as i32,
                            ),
                    decreases self.data@.len() - i,
                {
                    let x = self.domain.x_map(self.data[i].x);
                    let y = self.domain.y_map(self.data[i].y);
                    out.push(PathCmd::Move(x, y));
                    i = i + 1;
                }
                proof {
                    lemma_all_moves(out@);
                }
            },
        }
        out
    }

    /// The text spans labelling each data point, when labels are on.
    pub fn label_spans(&self) -> (r: Vec<Tspan>)
        requires
            domain_wf(self.domain.domain),
            forall|i: int|
                0 <= i < self.data@.len() ==> (#[trigger] self.data@[i]).x > i64::MIN
                    && self.data@[i].y > i64::MIN,
        ensures
            self.label is None ==> r@.len() == 0,
            self.label is Some ==> r@.len() == self.data@.len() && (forall|i: int|
                #![trigger r@[i]]
                0 <= i < r@.len() ==> r@[i].text@ == point_label(self.data@[i]) && r@[i].x == Some(
                    pt_x(*self, i) as i32,
                ) && r@[i].y == Some(pt_y(*self, i) as i32) && r@[i].dy == Some(-66i32)),
    {
        let mut out: Vec<Tspan> = Vec::new();
        let label = match &self.label {
            Some(label) => *label,
            None => {
                return out;
            },
        };
        let mut i: usize = 0;
        while i < self.data.len()
            invariant
                domain_wf(self.domain.domain),
                i <= self.data@.len(),
                out@.len() == i,
                forall|j: int|
                    0 <= j < self.data@.len() ==> (#[trigger] self.data@[j]).x > i64::MIN
                        && self.data@[j].y > i64::MIN,
                forall|j: int|
                    #![trigger out@[j]]
                    0 <= j < i ==> out@[j].text@ == point_label(self.data@[j]) && out@[j].x == Some(
                        pt_x(*self, j) as i32,
                    ) && out@[j].y == Some(pt_y(*self, j) as i32) && out@[j].dy == Some(-66i32),
            decreases self.data@.len() - i,
        {
            let p = self.data[i];
            let x = self.domain.x_map(p.x);
            let y = self.domain.y_map(p.y);
            let span = label.span_at(x, y, p);
            out.push(span);
            i = i + 1;
        }
        out
    }
}

} // verus!
