//! Properties of the lifecycle and of the frames, stated over the models and
//! proved.
use vstd::prelude::*;

use crate::figure::{figure_spec, LINE_WIDTH};
use crate::lifecycle::{
    ensure_spec, realize_spec, resize_spec, size_spec, unrealize_spec, Bridge, CanvasModel,
};
use crate::render::plan_spec;

verus! {

/// A toolkit callback between realize and unrealize. `framebuffer` is what
/// the host reads as the bound draw framebuffer if the bridge has to be built
/// during this callback.
pub enum Callback {
    Resize { width: i32, height: i32, scale: i32, framebuffer: u32 },
    Render { framebuffer: u32 },
}

/// What the host may pass: non-negative sizes, non-zero framebuffers.
pub open spec fn callback_ok(c: Callback) -> bool {
    match c {
        Callback::Resize { width, height, scale, framebuffer } => 0 <= width && 0 <= height
            && framebuffer != 0,
        Callback::Render { framebuffer } => framebuffer != 0,
    }
}

pub open spec fn callbacks_ok(cs: Seq<Callback>) -> bool {
    forall|i: int| 0 <= i < cs.len() ==> #[trigger] callback_ok(cs[i])
}

/// One callback: the bridge is ensured first, then a resize sizes it; a
/// render leaves the state as it is.
pub open spec fn callback_spec(m: CanvasModel, c: Callback) -> CanvasModel {
    match c {
        Callback::Resize { width, height, scale, framebuffer } => resize_spec(
            ensure_spec(m, framebuffer),
            width,
            height,
            scale,
        ),
        Callback::Render { framebuffer } => ensure_spec(m, framebuffer),
    }
}

/// The state after the callbacks `cs`, in order.
pub open spec fn run_spec(m: CanvasModel, cs: Seq<Callback>) -> CanvasModel
    decreases cs.len(),
{
    if cs.len() == 0 {
        m
    } else {
        run_spec(callback_spec(m, cs[0]), cs.drop_first())
    }
}

proof fn lemma_callback_keeps_wf(m: CanvasModel, c: Callback)
    requires
        m.wf(),
        m.realized,
        callback_ok(c),
    ensures
        callback_spec(m, c).wf(),
        callback_spec(m, c).realized,
        callback_spec(m, c).bridge is Some,
        m.bridge is Some ==> callback_spec(m, c).bridge->Some_0.framebuffer
            == m.bridge->Some_0.framebuffer,
{
}

proof fn lemma_run_push(m: CanvasModel, cs: Seq<Callback>, c: Callback)
    ensures
        run_spec(m, cs.push(c)) == callback_spec(run_spec(m, cs), c),
    decreases cs.len(),
{
    if cs.len() == 0 {
        assert(cs.push(c).drop_first() =~= Seq::<Callback>::empty());
        assert(cs.push(c)[0] == c);
        assert(run_spec(callback_spec(m, c), Seq::<Callback>::empty()) == callback_spec(m, c));
    } else {
        assert(cs.push(c).drop_first() =~= cs.drop_first().push(c));
        assert(cs.push(c)[0] == cs[0]);
        lemma_run_push(callback_spec(m, cs[0]), cs.drop_first(), c);
    }
}

/// Lazy construction happens at most once between a realize and the next
/// unrealize: whatever resizes and renders come, the state stays
/// well-formed, at most one bridge is built, a bridge that exists is kept
/// with its framebuffer, and after the first callback a bridge exists.
pub proof fn law_bridge_built_at_most_once(m: CanvasModel, cs: Seq<Callback>)
    requires
        m.wf(),
        m.realized,
        callbacks_ok(cs),
    ensures
        run_spec(m, cs).wf(),
        run_spec(m, cs).realized,
        run_spec(m, cs).constructions <= 1,
        m.bridge is Some ==> run_spec(m, cs).bridge is Some && run_spec(m, cs).bridge->Some_0.framebuffer
            == m.bridge->Some_0.framebuffer,
        cs.len() > 0 ==> run_spec(m, cs).bridge is Some,
    decreases cs.len(),
{
    if cs.len() > 0 {
        assert(callback_ok(cs[0]));
        lemma_callback_keeps_wf(m, cs[0]);
        let rest = cs.drop_first();
        assert forall|i: int| 0 <= i < rest.len() implies #[trigger] callback_ok(rest[i]) by {
            assert(callback_ok(cs[i + 1]));
        }
        law_bridge_built_at_most_once(callback_spec(m, cs[0]), rest);
    }
}

/// Whatever callbacks came before, a resize followed by a render leaves a
/// well-formed state whose bridge holds exactly the size and scale of that
/// resize; in that state a render's requirements hold.
pub proof fn law_resize_then_render_keeps_size(
    m: CanvasModel,
    cs: Seq<Callback>,
    width: i32,
    height: i32,
    scale: i32,
    fb_resize: u32,
    fb_render: u32,
)
    requires
        m.wf(),
        m.realized,
        callbacks_ok(cs),
        0 <= width,
        0 <= height,
        fb_resize != 0,
        fb_render != 0,
    ensures
        ({
            let end = run_spec(
                m,
                cs.push(Callback::Resize { width, height, scale, framebuffer: fb_resize }).push(
                    Callback::Render { framebuffer: fb_render },
                ),
            );
            &&& end.wf()
            &&& end.bridge is Some
            &&& end.bridge->Some_0.size == Some(size_spec(width, height, scale))
            &&& end.bridge->Some_0.size->Some_0.width as int == width as int
            &&& end.bridge->Some_0.size->Some_0.height as int == height as int
            &&& end.bridge->Some_0.size->Some_0.scale == scale
        }),
{
    let rs = Callback::Resize { width, height, scale, framebuffer: fb_resize };
    let rn = Callback::Render { framebuffer: fb_render };
    law_bridge_built_at_most_once(m, cs);
    lemma_run_push(m, cs, rs);
    lemma_run_push(m, cs.push(rs), rn);
    lemma_callback_keeps_wf(run_spec(m, cs), rs);
    lemma_callback_keeps_wf(run_spec(m, cs.push(rs)), rn);
}

/// Unrealize removes the bridge and resets the construction count; after a
/// new realize the next resize builds a fresh bridge on the framebuffer then
/// bound, and sizes it.
pub proof fn law_unrealize_resets(
    m: CanvasModel,
    width: i32,
    height: i32,
    scale: i32,
    framebuffer: u32,
)
    requires
        m.wf(),
        0 <= width,
        0 <= height,
        framebuffer != 0,
    ensures
        unrealize_spec(m).wf(),
        unrealize_spec(m).bridge is None,
        unrealize_spec(m).constructions == 0,
        !unrealize_spec(m).realized,
        realize_spec(unrealize_spec(m)).bridge is None,
        ({
            let again = callback_spec(
                realize_spec(unrealize_spec(m)),
                Callback::Resize { width, height, scale, framebuffer },
            );
            &&& again.wf()
            &&& again.constructions == 1
            &&& again.bridge == Some(
                Bridge { framebuffer, size: Some(size_spec(width, height, scale)) },
            )
        }),
{
}

/// Every frame first clears the whole widget rectangle to fully transparent.
pub proof fn law_frame_clears_transparent<C>(width: i32, height: i32, fg: C)
    requires
        0 <= width,
        0 <= height,
    ensures
        plan_spec(width, height, fg).clear.color.a == 0,
        plan_spec(width, height, fg).clear.x == 0,
        plan_spec(width, height, fg).clear.y == 0,
        plan_spec(width, height, fg).clear.width as int == width as int,
        plan_spec(width, height, fg).clear.height as int == height as int,
{
}

/// The stroked path is the fixed figure whatever the widget's size: frames
/// of any two sizes stroke the same segments at the same line width, and all
/// their end points lie at logical coordinates between 20 and 80.
pub proof fn law_figure_independent_of_size<C>(w1: i32, h1: i32, w2: i32, h2: i32, fg: C)
    ensures
        plan_spec(w1, h1, fg).path == plan_spec(w2, h2, fg).path,
        plan_spec(w1, h1, fg).line_width == plan_spec(w2, h2, fg).line_width,
        plan_spec(w1, h1, fg).path == figure_spec(),
        plan_spec(w1, h1, fg).line_width == LINE_WIDTH,
        forall|i: int|
            0 <= i < figure_spec().len() ==> {
                let s = #[trigger] figure_spec()[i];
                &&& 20 <= s.from.x <= 80
                &&& 20 <= s.from.y <= 80
                &&& 20 <= s.to.x <= 80
                &&& 20 <= s.to.y <= 80
            },
{
}

} // verus!
