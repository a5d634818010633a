//! Chart title: a text band split off one edge of the canvas.

use vstd::prelude::*;
use crate::rect::rect_fits;
use crate::rect::split_spec;
use crate::rect::Edge;
use crate::rect::Rect;
use crate::text::Anchor;

verus! {

/// Band height (or width) a title reserves.
pub const TITLE_SPACE: u16 = 100;

/// Chart title
#[derive(Clone, Debug, PartialEq)]
pub struct Title {
    /// Title text
    pub text: String,
    /// Text anchor
    pub anchor: Anchor,
    /// Edge of the canvas the title sits on
    pub edge: Edge,
    /// Band reserved for the title
    pub rect: Rect,
}

impl Title {
    /// Create a new title on the top edge
    pub fn new(text: String) -> (r: Self)
        ensures
            r.text == text,
            r.anchor == Anchor::Middle,
            r.edge == Edge::Top,
            r.rect == (Rect { x: 0, y: 0, width: 0, height: 0 }),
    {
        Title { text, anchor: Anchor::Middle, edge: Edge::Top, rect: Rect::default() }
    }

    /// Move the title to another edge
    pub fn on_edge(self, edge: Edge) -> (r: Self)
        ensures
            r == (Title { edge, ..self }),
    {
        Title { edge, ..self }
    }

    /// Anchor title text at start
    pub fn at_start(self) -> (r: Self)
        ensures
            r == (Title { anchor: Anchor::Start, ..self }),
    {
        Title { anchor: Anchor::Start, ..self }
    }

    /// Anchor title text at end
    pub fn at_end(self) -> (r: Self)
        ensures
            r == (Title { anchor: Anchor::End, ..self }),
    {
        Title { anchor: Anchor::End, ..self }
    }

    /// Split this title's band from the working area, keeping the carved
    /// band and returning the remainder.
    pub fn split(&mut self, area: Rect) -> (r: Rect)
        requires
            rect_fits(area),
        ensures
            r == split_spec(area, old(self).edge, TITLE_SPACE as int).0,
            *final(self) == (Title {
                rect: split_spec(area, old(self).edge, TITLE_SPACE as int).1,
                ..*old(self)
            }),
            rect_fits(r),
            rect_fits(final(self).rect),
    {
        let (rem, carved) = area.split(self.edge, TITLE_SPACE);
        self.rect = carved;
        rem
    }
}

} // verus!
