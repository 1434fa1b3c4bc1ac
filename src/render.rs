//! What one frame draws.
use vstd::prelude::*;

use crate::figure::{figure, figure_spec, Segment, LINE_WIDTH};

verus! {

/// A color with 8-bit channels.
#[derive(Clone, Copy, Debug, PartialEq, Eq, Structural)]
pub struct Rgba8 {
    pub r: u8,
    pub g: u8,
    pub b: u8,
    pub a: u8,
}

pub open spec fn transparent_spec() -> Rgba8 {
    Rgba8 { r: 0, g: 0, b: 0, a: 0 }
}

/// A rectangle of the target, in pixels from its top-left corner, to be
/// filled with `color`.
#[derive(Clone, Copy, Debug, PartialEq, Eq, Structural)]
pub struct ClearRect {
    pub x: u32,
    pub y: u32,
    pub width: u32,
    pub height: u32,
    pub color: Rgba8,
}

/// The fatal conditions of the canvas.
#[derive(Clone, Copy, Debug, PartialEq, Eq, Structural)]
pub enum CanvasError {
    /// The toolkit had no framebuffer of its own bound when the bridge was
    /// built.
    ZeroFramebuffer,
    /// The styling subsystem has no theme foreground color.
    ThemeColorMissing,
}

/// The commands of one frame, to be issued in this order: clear `clear`,
/// stroke every segment of `path` with `color` at `line_width`, flush. The
/// frame then reports `handled` to the toolkit.
pub struct RenderPlan<C> {
    pub clear: ClearRect,
    pub path: Vec<Segment>,
    pub color: C,
    pub line_width: u32,
    pub handled: bool,
}

/// The mathematical value of a [`RenderPlan`].
pub struct PlanModel<C> {
    pub clear: ClearRect,
    pub path: Seq<Segment>,
    pub color: C,
    pub line_width: u32,
    pub handled: bool,
}

impl<C> View for RenderPlan<C> {
    type V = PlanModel<C>;

    open spec fn view(&self) -> PlanModel<C> {
        PlanModel {
            clear: self.clear,
            path: self.path@,
            color: self.color,
            line_width: self.line_width,
            handled: self.handled,
        }
    }
}

/// The whole widget rectangle of `width` by `height`, made fully transparent.
pub open spec fn full_clear_spec(width: i32, height: i32) -> ClearRect
    recommends
        0 <= width,
        0 <= height,
{
    ClearRect {
        x: 0,
        y: 0,
        width: width as u32,
        height: height as u32,
        color: transparent_spec(),
    }
}

/// The frame for a widget of `width` by `height` whose theme foreground
/// color is `fg`.
pub open spec fn plan_spec<C>(width: i32, height: i32, fg: C) -> PlanModel<C> {
    PlanModel {
        clear: full_clear_spec(width, height),
        path: figure_spec(),
        color: fg,
        line_width: LINE_WIDTH,
        handled: true,
    }
}

/// Plans one frame. `theme` is what the styling subsystem returned for the
/// theme foreground color; without it there is no frame.
pub fn plan_frame<C>(width: i32, height: i32, theme: Option<C>) -> (r: Result<RenderPlan<C>, CanvasError>)
    requires
        0 <= width,
        0 <= height,
    ensures
        theme is None <==> r is Err,
        r is Err ==> r->Err_0 == CanvasError::ThemeColorMissing,
        r is Ok ==> r->Ok_0@ == plan_spec(width, height, theme->Some_0),
{
    match theme {
        None => Err(CanvasError::ThemeColorMissing),
        Some(fg) => {
            let clear = ClearRect {
                x: 0,
                y: 0,
                width: width as u32,
                height: height as u32,
                color: Rgba8 { r: 0, g: 0, b: 0, a: 0 },
            };
            Ok(RenderPlan { clear, path: figure(), color: fg, line_width: LINE_WIDTH, handled: true })
        },
    }
}

} // verus!
