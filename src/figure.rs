//! The fixed illustrative figure that every frame strokes.
use vstd::prelude::*;

verus! {

/// A point in logical drawing units.
#[derive(Clone, Copy, Debug, PartialEq, Eq, Structural)]
pub struct Point {
    pub x: u32,
    pub y: u32,
}

/// A two-point line segment: the pen moves to `from` and draws to `to`.
#[derive(Clone, Copy, Debug, PartialEq, Eq, Structural)]
pub struct Segment {
    pub from: Point,
    pub to: Point,
}

/// Logical width of the stroke, in drawing units.
pub const LINE_WIDTH: u32 = 2;

pub open spec fn seg(x0: u32, y0: u32, x1: u32, y1: u32) -> Segment {
    Segment { from: Point { x: x0, y: y0 }, to: Point { x: x1, y: y1 } }
}

/// The figure: six disconnected strokes at fixed logical coordinates.
pub open spec fn figure_spec() -> Seq<Segment> {
    seq![
        seg(20, 20, 20, 80),
        seg(20, 50, 40, 50),
        seg(40, 20, 40, 80),
        seg(50, 20, 70, 20),
        seg(50, 80, 70, 80),
        seg(60, 20, 60, 80),
    ]
}

fn segment(x0: u32, y0: u32, x1: u32, y1: u32) -> (r: Segment)
    ensures
        r == seg(x0, y0, x1, y1),
{
    Segment { from: Point { x: x0, y: y0 }, to: Point { x: x1, y: y1 } }
}

/// Builds the figure's segments in drawing order. The figure does not depend
/// on the widget's size: it is the same on every frame.
pub fn figure() -> (r: Vec<Segment>)
    ensures
        r@ == figure_spec(),
{
    let mut v: Vec<Segment> = Vec::new();
    v.push(segment(20, 20, 20, 80));
    v.push(segment(20, 50, 40, 50));
    v.push(segment(40, 20, 40, 80));
    v.push(segment(50, 20, 70, 20));
    v.push(segment(50, 80, 70, 80));
    v.push(segment(60, 20, 60, 80));
    assert(v@ =~= figure_spec());
    v
}

} // verus!
