//! Chart composer: canvas choice and the ordered partitioning of the
//! canvas into title bands, axis bands and the plot area.
//!
//! Construction is a strict phase sequence — aspect ratio, then domain,
//! then titles, then axes, then plots — because every split is taken from
//! the working area as it stands at that moment.  The phase order is
//! enforced statically: each builder call requires that no later phase
//! has started.

use vstd::prelude::*;
use crate::axis::axis_space;
use crate::axis::Axis;
use crate::domain::domain_wf;
use crate::domain::is_axis_for;
use crate::domain::BoundDomain;
use crate::domain::Domain;
use crate::plot::Plot;
use crate::rect::rect_fits;
use crate::rect::sat_sub;
use crate::rect::split_spec;
use crate::rect::Edge;
use crate::rect::Rect;
use crate::title::Title;
use crate::title::TITLE_SPACE;

verus! {

/// Margin inset on every canvas edge.
pub const CHART_MARGIN: u16 = 40;

/// Chart aspect ratio
#[derive(Clone, Copy, Debug, PartialEq, Eq, Structural)]
pub enum AspectRatio {
    /// Wide rectangular aspect
    Landscape,
    /// Square aspect
    Square,
    /// Tall rectangular aspect
    Portrait,
}

/// The fixed pixel canvas of an aspect ratio.
pub open spec fn aspect_rect_spec(a: AspectRatio) -> Rect {
    match a {
        AspectRatio::Landscape => Rect { x: 0, y: 0, width: 2000, height: 1500 },
        AspectRatio::Square => Rect { x: 0, y: 0, width: 2000, height: 2000 },
        AspectRatio::Portrait => Rect { x: 0, y: 0, width: 1500, height: 2000 },
    }
}

/// The canvas of an aspect ratio after the chart margin has been inset.
pub open spec fn chart_area_spec(a: AspectRatio) -> Rect {
    let r = aspect_rect_spec(a);
    Rect {
        x: (r.x + CHART_MARGIN) as i32,
        y: (r.y + CHART_MARGIN) as i32,
        width: sat_sub(r.width as int, 2 * CHART_MARGIN) as u16,
        height: sat_sub(r.height as int, 2 * CHART_MARGIN) as u16,
    }
}

impl AspectRatio {
    /// Get the canvas rectangle
    pub fn rect(self) -> (r: Rect)
        ensures
            r == aspect_rect_spec(self),
            rect_fits(r),
    {
        match self {
            AspectRatio::Landscape => Rect::new(0, 0, 2000, 1500),
            AspectRatio::Square => Rect::new(0, 0, 2000, 2000),
            AspectRatio::Portrait => Rect::new(0, 0, 1500, 2000),
        }
    }
}

/// Chart for plotting data
///
/// Multiple plots can be rendered in a single chart, even with unrelated
/// domains and axes.
#[derive(Debug)]
pub struct Chart {
    /// Whether the chart is rendered as a stand-alone document
    pub stand_alone: bool,
    /// Canvas aspect ratio
    pub aspect_ratio: AspectRatio,
    /// Titles, with their carved bands
    pub titles: Vec<Title>,
    /// Data domain shared by axes and plots
    pub domain: Domain,
    /// Axes, with their carved bands
    pub axes: Vec<Axis>,
    /// Plots, each bound to the plot area known when it was added
    pub plots: Vec<Plot>,
    /// Number for the next plot's visual style
    pub num: u32,
    /// Working area: what is left of the canvas after margin, titles and
    /// axes
    pub area: Rect,
}

/// The chart's working area stays a valid pixel region and its domain
/// stays well-formed.
pub open spec fn chart_wf(c: Chart) -> bool {
    &&& rect_fits(c.area)
    &&& domain_wf(c.domain)
}

impl Default for Chart {
    /// A landscape chart with the unit domain and the margin applied
    fn default() -> (r: Self)
        ensures
            r.stand_alone,
            r.aspect_ratio == AspectRatio::Landscape,
            r.titles@.len() == 0,
            r.axes@.len() == 0,
            r.plots@.len() == 0,
            r.num == 0,
            r.area == chart_area_spec(AspectRatio::Landscape),
            chart_wf(r),
    {
        Chart {
            stand_alone: true,
            aspect_ratio: AspectRatio::Landscape,
            titles: Vec::new(),
            domain: Domain::default(),
            axes: Vec::new(),
            plots: Vec::new(),
            num: 0,
            area: AspectRatio::Landscape.rect().inset(CHART_MARGIN),
        }
    }
}

impl Chart {
    /// Create a new chart
    pub fn new() -> (r: Self)
        ensures
            r.stand_alone,
            r.aspect_ratio == AspectRatio::Landscape,
            r.titles@.len() == 0,
            r.axes@.len() == 0,
            r.plots@.len() == 0,
            r.num == 0,
            r.area == chart_area_spec(AspectRatio::Landscape),
            chart_wf(r),
    {
        Self::default()
    }

    /// Set the stand-alone flag
    pub fn stand_alone(self, stand_alone: bool) -> (r: Self)
        ensures
            r == (Chart { stand_alone, ..self }),
    {
        Chart { stand_alone, ..self }
    }

    /// Adjust the aspect ratio, resetting the working area.
    ///
    /// Must come before titles, axes and plots: the bands they carve
    /// depend on the canvas.
    pub fn aspect_ratio(self, aspect: AspectRatio) -> (r: Self)
        requires
            self.titles@.len() == 0,
            self.axes@.len() == 0,
            self.plots@.len() == 0,
            domain_wf(self.domain),
        ensures
            r == (Chart { aspect_ratio: aspect, area: chart_area_spec(aspect), ..self }),
            chart_wf(r),
    {
        let area = aspect.rect().inset(CHART_MARGIN);
        Chart { aspect_ratio: aspect, area, ..self }
    }

    /// Set the domain.
    ///
    /// Must come before axes and plots: both read the domain when they
    /// are added.
    pub fn domain(self, domain: Domain) -> (r: Self)
        requires
            self.axes@.len() == 0,
            self.plots@.len() == 0,
            rect_fits(self.area),
            domain_wf(domain),
        ensures
            r == (Chart { domain, ..self }),
            chart_wf(r),
    {
        Chart { domain, ..self }
    }

    /// Add a chart title, carving its band off the working area.
    ///
    /// Must come before axes and plots.
    pub fn title(self, title: Title) -> (r: Self)
        requires
            self.axes@.len() == 0,
            self.plots@.len() == 0,
            chart_wf(self),
        ensures
            r.area == split_spec(self.area, title.edge, TITLE_SPACE as int).0,
            r.titles@ == self.titles@.push(
                Title { rect: split_spec(self.area, title.edge, TITLE_SPACE as int).1, ..title },
            ),
            r == (Chart { titles: r.titles, area: r.area, ..self }),
            chart_wf(r),
    {
        let mut title = title;
        let mut this = self;
        let area = title.split(this.area);
        this.area = area;
        this.titles.push(title);
        this
    }

    /// Add an axis for the domain on `edge`, carving its band off the
    /// working area.
    ///
    /// Must come before plots: a plot's bound domain is fixed at the
    /// moment of insertion.
    pub fn axis(self, name: String, edge: Edge) -> (r: Self)
        requires
            self.plots@.len() == 0,
            chart_wf(self),
        ensures
            ({
                let space: int = if name@.len() == 0 {
                    80
                } else {
                    160
                };
                &&& r.area == split_spec(self.area, edge, space).0
                &&& r.axes@.len() == self.axes@.len() + 1
                &&& r.axes@.subrange(0, self.axes@.len() as int) == self.axes@
                &&& is_axis_for(r.axes@.last(), self.domain, name@, edge)
                &&& r.axes@.last().rect == split_spec(self.area, edge, space).1
            }),
            r == (Chart { axes: r.axes, area: r.area, ..self }),
            chart_wf(r),
    {
        let mut this = self;
        let mut axis = this.domain.axis(name, edge);
        let area = axis.split(this.area);
        this.area = area;
        proof {
            assert(this.axes@.push(axis).subrange(0, this.axes@.len() as int) =~= this.axes@);
        }
        this.axes.push(axis);
        this
    }

    /// Add a plot, binding it to the plot area as it stands now and
    /// giving it the next style number (the numbers cycle).
    pub fn plot(self, plot: Plot) -> (r: Self)
        requires
            chart_wf(self),
        ensures
            r.plots@ == self.plots@.push(
                Plot {
                    num: self.num,
                    domain: BoundDomain { domain: self.domain, rect: self.area },
                    ..plot
                },
            ),
            r.num == (if self.num < 10 {
                self.num + 1
            } else {
                0
            }),
            r == (Chart { plots: r.plots, num: r.num, ..self }),
            chart_wf(r),
    {
        let mut this = self;
        let mut plot = plot;
        plot.num = this.num;
        this.num = if this.num < 10 {
            this.num + 1
        } else {
            0
        };
        plot.domain = this.domain.bind(this.area);
        this.plots.push(plot);
        this
    }

    /// The marker glyph path for a plot number; the eight glyphs repeat.
    pub fn marker_path(num: u32) -> (r: &'static str)
        ensures
            num % 8 == 0 ==> r@ == "M0 1A1 1 0 0 1 0 -1 A1 1 0 0 1 0 1"@,
            num % 8 == 1 ==> r@ == "M-1 -1h2v2h-2z"@,
            num % 8 == 2 ==> r@ == "M0 -1 1 1 -1 1z"@,
            num % 8 == 3 ==> r@ == "M1 0 -1 1 -1 -1z"@,
            num % 8 == 4 ==> r@ == "M0 1 -1 -1 1 -1z"@,
            num % 8 == 5 ==> r@ == "M-1 0 1 -1 1 1z"@,
            num % 8 == 6 ==> r@ == "M0 -1 1 0 0 1 -1 0z"@,
            num % 8 == 7 ==> r@ == "M-1 -1 0 -0.5 1 -1 0.5 0 1 1 0 0.5 -1 1 -0.5 0z"@,
    {
        match num % 8 {
            0 => "M0 1A1 1 0 0 1 0 -1 A1 1 0 0 1 0 1",
            1 => "M-1 -1h2v2h-2z",
            2 => "M0 -1 1 1 -1 1z",
            3 => "M1 0 -1 1 -1 -1z",
            4 => "M0 1 -1 -1 1 -1z",
            5 => "M-1 0 1 -1 1 1z",
            6 => "M0 -1 1 0 0 1 -1 0z",
            _ => "M-1 -1 0 -0.5 1 -1 0.5 0 1 1 0 0.5 -1 1 -0.5 0z",
        }
    }
}

} // verus!
