use femtovg_canvas::{
    figure, Bridge, BridgeStep, CanvasError, CanvasSize, ClearRect, FemtovgCanvas, Point, Rgba8,
    Segment, TeardownStep, HAS_STENCIL_BUFFER,
};

fn seg(x0: u32, y0: u32, x1: u32, y1: u32) -> Segment {
    Segment { from: Point { x: x0, y: y0 }, to: Point { x: x1, y: y1 } }
}

fn expected_figure() -> Vec<Segment> {
    vec![
        seg(20, 20, 20, 80),
        seg(20, 50, 40, 50),
        seg(40, 20, 40, 80),
        seg(50, 20, 70, 20),
        seg(50, 80, 70, 80),
        seg(60, 20, 60, 80),
    ]
}

/// A realized widget whose bridge targets `framebuffer`.
fn ready(framebuffer: i32) -> FemtovgCanvas {
    let mut c = FemtovgCanvas::new();
    c.realize();
    assert_eq!(c.ensure_canvas(), BridgeStep::Build);
    let id = FemtovgCanvas::framebuffer_target(framebuffer).unwrap();
    c.install_bridge(id);
    c
}

#[test]
fn new_widget_has_no_bridge() {
    let c = FemtovgCanvas::new();
    assert!(!c.is_realized());
    assert_eq!(c.bridge(), None);
    assert_eq!(c.size(), None);
    assert_eq!(c.constructions(), 0);
    let d = FemtovgCanvas::default();
    assert!(!d.is_realized());
    assert_eq!(d.bridge(), None);
    assert_eq!(d.constructions(), 0);
}

#[test]
fn stencil_buffer_is_requested() {
    assert!(HAS_STENCIL_BUFFER);
}

#[test]
fn figure_is_six_fixed_segments() {
    assert_eq!(figure(), expected_figure());
}

#[test]
fn zero_framebuffer_is_fatal() {
    assert_eq!(FemtovgCanvas::framebuffer_target(0), Err(CanvasError::ZeroFramebuffer));
}

#[test]
fn framebuffer_ids_pass_through() {
    assert_eq!(FemtovgCanvas::framebuffer_target(1), Ok(1));
    assert_eq!(FemtovgCanvas::framebuffer_target(42), Ok(42));
    assert_eq!(FemtovgCanvas::framebuffer_target(-1), Ok(u32::MAX));
}

#[test]
fn install_records_bridge_without_size() {
    let c = ready(9);
    assert_eq!(c.bridge(), Some(Bridge { framebuffer: 9, size: None }));
    assert_eq!(c.size(), None);
    assert_eq!(c.constructions(), 1);
    assert_eq!(c.ensure_canvas(), BridgeStep::Present);
}

#[test]
fn resize_then_render_keeps_last_size() {
    let triples = [(0, 0, 1), (400, 400, 1), (1, 7, 2), (800, 600, 3), (i32::MAX, i32::MAX, i32::MAX)];
    for (w, h, s) in triples {
        let mut c = ready(3);
        let applied = c.resize(w, h, s);
        assert_eq!(applied, CanvasSize { width: w as u32, height: h as u32, scale: s });
        let frame = c.render(w, h, Some(0u8)).unwrap();
        assert!(frame.handled);
        assert_eq!(c.size(), Some(CanvasSize { width: w as u32, height: h as u32, scale: s }));
    }
}

#[test]
fn bridge_is_built_once() {
    let mut c = ready(5);
    for i in 0..20 {
        assert_eq!(c.ensure_canvas(), BridgeStep::Present);
        c.resize(100 + i, 50 + i, 1 + i % 2);
        assert_eq!(c.ensure_canvas(), BridgeStep::Present);
        c.render(100 + i, 50 + i, Some(())).unwrap();
        assert_eq!(c.constructions(), 1);
        assert_eq!(c.bridge().unwrap().framebuffer, 5);
    }
}

#[test]
fn unrealize_drops_bridge_and_resets_count() {
    let mut c = ready(5);
    c.resize(400, 400, 1);
    let steps = c.unrealize();
    assert_eq!(
        steps,
        vec![TeardownStep::MakeCurrent, TeardownStep::ReleaseBridge, TeardownStep::ParentUnrealize]
    );
    assert!(!c.is_realized());
    assert_eq!(c.bridge(), None);
    assert_eq!(c.size(), None);
    assert_eq!(c.constructions(), 0);

    c.realize();
    assert_eq!(c.ensure_canvas(), BridgeStep::Build);
    c.install_bridge(11);
    let applied = c.resize(300, 200, 2);
    assert_eq!(applied, CanvasSize { width: 300, height: 200, scale: 2 });
    assert_eq!(c.constructions(), 1);
    assert_eq!(
        c.bridge(),
        Some(Bridge { framebuffer: 11, size: Some(CanvasSize { width: 300, height: 200, scale: 2 }) })
    );
}

#[test]
fn unrealize_without_bridge_skips_release() {
    let mut c = FemtovgCanvas::new();
    c.realize();
    let steps = c.unrealize();
    assert_eq!(steps, vec![TeardownStep::MakeCurrent, TeardownStep::ParentUnrealize]);
    assert_eq!(c.constructions(), 0);
}

#[test]
fn render_clears_to_transparent() {
    let mut c = ready(2);
    c.resize(640, 480, 2);
    let frame = c.render(640, 480, Some((1u8, 2u8, 3u8, 255u8))).unwrap();
    assert_eq!(
        frame.clear,
        ClearRect { x: 0, y: 0, width: 640, height: 480, color: Rgba8 { r: 0, g: 0, b: 0, a: 0 } }
    );
    assert_eq!(frame.clear.color.a, 0);
}

#[test]
fn figure_does_not_follow_widget_size() {
    let mut c = ready(2);
    c.resize(400, 400, 1);
    let small = c.render(400, 400, Some(7u32)).unwrap();
    c.resize(800, 600, 1);
    let large = c.render(800, 600, Some(7u32)).unwrap();
    assert_eq!(small.path, large.path);
    assert_eq!(small.path, expected_figure());
    assert_eq!(small.line_width, 2);
    assert_eq!(large.line_width, 2);
    assert_eq!(large.clear.width, 800);
    assert_eq!(large.clear.height, 600);
}

#[test]
fn first_frame_strokes_theme_color() {
    let mut c = FemtovgCanvas::new();
    c.realize();
    assert_eq!(c.ensure_canvas(), BridgeStep::Build);
    c.install_bridge(FemtovgCanvas::framebuffer_target(1).unwrap());
    c.resize(400, 400, 1);
    assert_eq!(c.ensure_canvas(), BridgeStep::Present);
    let fg = (0.2f32, 0.4f32, 0.6f32, 1.0f32);
    let frame = c.render(400, 400, Some(fg)).unwrap();
    assert_eq!(frame.color, fg);
    assert_eq!(frame.clear.color, Rgba8 { r: 0, g: 0, b: 0, a: 0 });
    assert_eq!(frame.clear.width, 400);
    assert_eq!(frame.clear.height, 400);
    assert_eq!(frame.path, expected_figure());
    assert!(frame.handled);
}

#[test]
fn missing_theme_color_is_fatal() {
    let mut c = ready(1);
    c.resize(400, 400, 1);
    let r = c.render::<u8>(400, 400, None);
    assert!(matches!(r, Err(CanvasError::ThemeColorMissing)));
}

#[test]
fn second_resize_wins() {
    let mut c = ready(4);
    c.resize(400, 400, 1);
    c.resize(1024, 768, 2);
    assert_eq!(c.size(), Some(CanvasSize { width: 1024, height: 768, scale: 2 }));
}
