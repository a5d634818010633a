//! Rectangle partitioning: splits tile exactly, oversized requests
//! saturate, insets and intersections clip.

use splot::rect::{Edge, Rect};

#[test]
fn split_tiles_exactly() {
    let r = Rect::new(10, 20, 100, 50);
    for &(edge, v) in [
        (Edge::Top, 15u16),
        (Edge::Bottom, 15),
        (Edge::Left, 30),
        (Edge::Right, 30),
    ]
    .iter()
    {
        let (rem, carved) = r.split(edge, v);
        // no gap, no overlap: areas add up and pieces stay inside
        let area =
            rem.width as u32 * rem.height as u32 + carved.width as u32 * carved.height as u32;
        assert_eq!(area, 100 * 50);
        for piece in [rem, carved].iter() {
            assert!(piece.x >= r.x && piece.y >= r.y);
            assert!(piece.right() <= r.right() && piece.bottom() <= r.bottom());
        }
        // pieces are disjoint
        assert!(
            rem.right() <= carved.x
                || carved.right() <= rem.x
                || rem.bottom() <= carved.y
                || carved.bottom() <= rem.y
        );
    }
}

#[test]
fn split_positions() {
    let r = Rect::new(0, 0, 100, 50);
    let (rem, carved) = r.split(Edge::Top, 10);
    assert_eq!(carved, Rect::new(0, 0, 100, 10));
    assert_eq!(rem, Rect::new(0, 10, 100, 40));
    let (rem, carved) = r.split(Edge::Bottom, 10);
    assert_eq!(carved, Rect::new(0, 40, 100, 10));
    assert_eq!(rem, Rect::new(0, 0, 100, 40));
    let (rem, carved) = r.split(Edge::Left, 10);
    assert_eq!(carved, Rect::new(0, 0, 10, 50));
    assert_eq!(rem, Rect::new(10, 0, 90, 50));
    let (rem, carved) = r.split(Edge::Right, 10);
    assert_eq!(carved, Rect::new(90, 0, 10, 50));
    assert_eq!(rem, Rect::new(0, 0, 90, 50));
}

#[test]
fn oversized_split_saturates() {
    let r = Rect::new(10, 20, 100, 50);
    let (rem, carved) = r.split(Edge::Top, 51);
    assert_eq!(rem, r);
    assert_eq!(carved.width as u32 * carved.height as u32, 0);
    let (rem, carved) = r.split(Edge::Left, 101);
    assert_eq!(rem, r);
    assert_eq!(carved.width as u32 * carved.height as u32, 0);
}

#[test]
fn inset_shrinks_symmetrically() {
    let r = Rect::new(0, 0, 2000, 1500).inset(40);
    assert_eq!(r, Rect::new(40, 40, 1920, 1420));
    // an oversized inset saturates to a zero-size rectangle
    let r = Rect::new(0, 0, 30, 30).inset(20);
    assert_eq!(r.width, 0);
    assert_eq!(r.height, 0);
}

#[test]
fn edges() {
    let r = Rect::new(10, 20, 100, 50);
    assert_eq!(r.right(), 110);
    assert_eq!(r.bottom(), 70);
}

#[test]
fn intersections_clip() {
    let mut r = Rect::new(0, 0, 100, 50);
    r.intersect_horiz(&Rect::new(30, 999, 40, 1));
    assert_eq!(r, Rect::new(30, 0, 40, 50));
    let mut r = Rect::new(0, 0, 100, 50);
    r.intersect_vert(&Rect::new(999, 10, 1, 20));
    assert_eq!(r, Rect::new(0, 10, 100, 20));
    // disjoint extents clip to nothing
    let mut r = Rect::new(0, 0, 10, 10);
    r.intersect_horiz(&Rect::new(50, 0, 10, 10));
    assert_eq!(r.width, 0);
}

#[test]
fn view_box_text() {
    assert_eq!(Rect::new(0, 0, 2000, 1500).view_box(), "0 0 2000 1500");
    assert_eq!(Rect::new(-5, 7, 1, 0).view_box(), "-5 7 1 0");
}
