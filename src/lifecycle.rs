//! The widget's lifecycle: when the renderer bridge exists, what it targets and
//! what size it has.
use vstd::prelude::*;

use crate::render::{plan_frame, plan_spec, CanvasError, RenderPlan};

verus! {

/// The widget asks the toolkit for a stencil buffer: the vector renderer
/// fills paths with a stencil algorithm.
pub const HAS_STENCIL_BUFFER: bool = true;

/// The size handed to the canvas: pixel width and height, and the device
/// scale factor.
#[derive(Clone, Copy, Debug, PartialEq, Eq, Structural)]
pub struct CanvasSize {
    pub width: u32,
    pub height: u32,
    pub scale: i32,
}

/// The renderer bridge: the framebuffer it draws into, and the size it was
/// last given, if any.
#[derive(Clone, Copy, Debug, PartialEq, Eq, Structural)]
pub struct Bridge {
    pub framebuffer: u32,
    pub size: Option<CanvasSize>,
}

/// Whether the bridge must be built before the callback goes on.
#[derive(Clone, Copy, Debug, PartialEq, Eq, Structural)]
pub enum BridgeStep {
    /// The bridge exists: nothing to do.
    Present,
    /// Attach the widget's buffers, create the renderer, read the bound draw
    /// framebuffer, pass it through [`FemtovgCanvas::framebuffer_target`]
    /// and hand the result to [`FemtovgCanvas::install_bridge`].
    Build,
}

/// One step of tearing the widget down, in the order given by
/// [`FemtovgCanvas::unrealize`].
#[derive(Clone, Copy, Debug, PartialEq, Eq, Structural)]
pub enum TeardownStep {
    /// Make the widget's graphics context current.
    MakeCurrent,
    /// Drop the renderer bridge, with the context current.
    ReleaseBridge,
    /// Let the toolkit run its own teardown.
    ParentUnrealize,
}

/// The mathematical value of a [`FemtovgCanvas`].
pub struct CanvasModel {
    /// The widget has a graphics context.
    pub realized: bool,
    pub bridge: Option<Bridge>,
    /// Bridges built since the widget was created or last unrealized.
    pub constructions: nat,
}

impl CanvasModel {
    /// A bridge exists only while there is a context, targets a framebuffer
    /// of the toolkit's own, and was built once since the last teardown.
    pub open spec fn wf(self) -> bool {
        &&& (self.bridge is Some ==> self.realized && self.bridge->Some_0.framebuffer != 0)
        &&& self.constructions == (if self.bridge is Some { 1nat } else { 0nat })
    }
}

pub open spec fn initial_spec() -> CanvasModel {
    CanvasModel { realized: false, bridge: None, constructions: 0 }
}

pub open spec fn realize_spec(m: CanvasModel) -> CanvasModel {
    CanvasModel { realized: true, ..m }
}

pub open spec fn unrealize_spec(m: CanvasModel) -> CanvasModel {
    CanvasModel { realized: false, bridge: None, constructions: 0 }
}

pub open spec fn teardown_spec(had_bridge: bool) -> Seq<TeardownStep> {
    if had_bridge {
        seq![TeardownStep::MakeCurrent, TeardownStep::ReleaseBridge, TeardownStep::ParentUnrealize]
    } else {
        seq![TeardownStep::MakeCurrent, TeardownStep::ParentUnrealize]
    }
}

/// Lazy construction: a present bridge is kept; otherwise one is built that
/// targets `framebuffer` and has no size yet.
pub open spec fn ensure_spec(m: CanvasModel, framebuffer: u32) -> CanvasModel {
    if m.bridge is Some {
        m
    } else {
        CanvasModel {
            bridge: Some(Bridge { framebuffer, size: None }),
            constructions: m.constructions + 1,
            ..m
        }
    }
}

pub open spec fn size_spec(width: i32, height: i32, scale: i32) -> CanvasSize
    recommends
        0 <= width,
        0 <= height,
{
    CanvasSize { width: width as u32, height: height as u32, scale }
}

/// The bridge, if present, takes the new size; nothing else changes.
pub open spec fn resize_spec(m: CanvasModel, width: i32, height: i32, scale: i32) -> CanvasModel {
    match m.bridge {
        Some(b) => CanvasModel {
            bridge: Some(Bridge { size: Some(size_spec(width, height, scale)), ..b }),
            ..m
        },
        None => m,
    }
}

/// The lifecycle state of the canvas widget.
pub struct FemtovgCanvas {
    realized: bool,
    bridge: Option<Bridge>,
    constructions: u32,
}

impl View for FemtovgCanvas {
    type V = CanvasModel;

    closed spec fn view(&self) -> CanvasModel {
        CanvasModel {
            realized: self.realized,
            bridge: self.bridge,
            constructions: self.constructions as nat,
        }
    }
}

impl FemtovgCanvas {
    /// A widget that has no context and no bridge.
    pub fn new() -> (r: FemtovgCanvas)
        ensures
            r@ == initial_spec(),
    {
        FemtovgCanvas { realized: false, bridge: None, constructions: 0 }
    }

    /// The toolkit has created the widget's graphics context.
    pub fn realize(&mut self)
        requires
            old(self)@.wf(),
        ensures
            final(self)@ == realize_spec(old(self)@),
            final(self)@.wf(),
    {
        self.realized = true;
    }

    /// Tears the widget down. Returns the steps the host performs, in order:
    /// the context is made current before the bridge, if there is one, is
    /// dropped, and the toolkit's own teardown comes last. Afterwards there is
    /// no bridge and the construction count starts again from zero.
    pub fn unrealize(&mut self) -> (r: Vec<TeardownStep>)
        requires
            old(self)@.wf(),
        ensures
            final(self)@ == unrealize_spec(old(self)@),
            final(self)@.wf(),
            r@ == teardown_spec(old(self)@.bridge is Some),
    {
        let mut steps: Vec<TeardownStep> = Vec::new();
        steps.push(TeardownStep::MakeCurrent);
        if self.bridge.is_some() {
            steps.push(TeardownStep::ReleaseBridge);
        }
        steps.push(TeardownStep::ParentUnrealize);
        self.bridge = None;
        self.realized = false;
        self.constructions = 0;
        proof {
            if old(self)@.bridge is Some {
                assert(steps@ =~= teardown_spec(true));
            } else {
                assert(steps@ =~= teardown_spec(false));
            }
        }
        steps
    }

    /// First step of lazy construction: says whether the bridge must be
    /// built. A second call while the bridge exists asks for nothing.
    pub fn ensure_canvas(&self) -> (r: BridgeStep)
        requires
            self@.wf(),
            self@.realized,
        ensures
            r == BridgeStep::Build <==> self@.bridge is None,
    {
        if self.bridge.is_some() {
            BridgeStep::Present
        } else {
            BridgeStep::Build
        }
    }

    /// Checks the draw framebuffer that was bound when the bridge was being
    /// built, as the graphics API reports it. Zero is the window's default
    /// framebuffer: the toolkit has not redirected output yet, which is a
    /// fatal ordering error.
    pub fn framebuffer_target(raw: i32) -> (r: Result<u32, CanvasError>)
        ensures
            raw == 0 ==> r == Err::<u32, CanvasError>(CanvasError::ZeroFramebuffer),
            raw != 0 ==> r == Ok::<u32, CanvasError>(raw as u32),
            r matches Ok(id) ==> id != 0,
    {
        if raw == 0 {
            Err(CanvasError::ZeroFramebuffer)
        } else {
            let id = #[verifier::truncate] (raw as u32);
            assert(raw != 0 ==> #[verifier::truncate] (raw as u32) != 0) by (bit_vector);
            Ok(id)
        }
    }

    /// Last step of lazy construction: records the bridge that now targets
    /// `framebuffer`. It has no size until the next resize.
    pub fn install_bridge(&mut self, framebuffer: u32)
        requires
            old(self)@.wf(),
            old(self)@.realized,
            old(self)@.bridge is None,
            framebuffer != 0,
        ensures
            final(self)@ == ensure_spec(old(self)@, framebuffer),
            final(self)@.wf(),
    {
        self.bridge = Some(Bridge { framebuffer, size: None });
        self.constructions = self.constructions + 1;
    }

    /// A geometry change: the bridge takes the new pixel size and scale
    /// factor, which the host passes on to the canvas. Applied on every call,
    /// since the scale can change while the size does not.
    pub fn resize(&mut self, width: i32, height: i32, scale: i32) -> (r: CanvasSize)
        requires
            old(self)@.wf(),
            old(self)@.bridge is Some,
            0 <= width,
            0 <= height,
        ensures
            r == size_spec(width, height, scale),
            final(self)@ == resize_spec(old(self)@, width, height, scale),
            final(self)@.wf(),
    {
        let size = CanvasSize { width: width as u32, height: height as u32, scale };
        if let Some(b) = self.bridge {
            self.bridge = Some(Bridge { size: Some(size), ..b });
        }
        size
    }

    /// Plans a frame of a widget of `width` by `height`. `theme` is the
    /// theme foreground color as the styling subsystem returned it this frame.
    pub fn render<C>(&self, width: i32, height: i32, theme: Option<C>) -> (r: Result<RenderPlan<C>, CanvasError>)
        requires
            self@.wf(),
            self@.bridge is Some,
            0 <= width,
            0 <= height,
        ensures
            theme is None <==> r is Err,
            r is Err ==> r->Err_0 == CanvasError::ThemeColorMissing,
            r is Ok ==> r->Ok_0@ == plan_spec(width, height, theme->Some_0),
    {
        plan_frame(width, height, theme)
    }

    pub fn is_realized(&self) -> (r: bool)
        ensures
            r == self@.realized,
    {
        self.realized
    }

    /// The bridge, if one exists.
    pub fn bridge(&self) -> (r: Option<Bridge>)
        ensures
            r == self@.bridge,
    {
        self.bridge
    }

    /// The size the canvas was last given, if there is a bridge and it has
    /// been sized.
    pub fn size(&self) -> (r: Option<CanvasSize>)
        ensures
            r == (match self@.bridge {
                Some(b) => b.size,
                None => None,
            }),
    {
        match self.bridge {
            Some(b) => b.size,
            None => None,
        }
    }

    /// Bridges built since the widget was created or last unrealized.
    pub fn constructions(&self) -> (r: u32)
        ensures
            r as nat == self@.constructions,
    {
        self.constructions
    }
}

impl Default for FemtovgCanvas {
    fn default() -> (r: FemtovgCanvas)
        ensures
            r@ == initial_spec(),
    {
        FemtovgCanvas::new()
    }
}

} // verus!
