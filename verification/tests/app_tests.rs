use egui_d3d11::app::{
    blend_state_desc, input_layout_desc, raster_state_desc, sampler_state_desc, vertex_stride,
    viewport_desc, AttributeFormat, DirectX11App, FrameOutput, OverlayError, ViewportDesc,
};
use egui_d3d11::input::{InputEvent, PixelPos, ScreenSize, SystemInput, WM_MOUSEMOVE};
use egui_d3d11::mesh::{GpuMesh, GpuVertex, LinearColor, SubPos, SubRect, TexCoord};
use egui_d3d11::render_target::RenderTargetTracker;
use egui_d3d11::texture::{
    ImageData, ImageDelta, TextureAction, TextureId, TexturesDelta,
};

fn quiet() -> SystemInput {
    SystemInput { ctrl_down: false, shift_down: false, clipboard: None }
}

fn vertex_px(x: i32, y: i32) -> GpuVertex {
    GpuVertex {
        pos: SubPos { x: x * 256, y: y * 256 },
        uv: TexCoord { u: 0, v: 0 },
        color: LinearColor { r: 65535, g: 65535, b: 65535, a: 65535 },
    }
}

fn full_screen_rect(w: i32, h: i32) -> SubRect {
    SubRect { min: SubPos { x: 0, y: 0 }, max: SubPos { x: w * 256, y: h * 256 } }
}

fn font_delta() -> TexturesDelta {
    TexturesDelta {
        set: vec![(
            TextureId::Managed(0),
            ImageDelta {
                image: ImageData::Intensity { width: 1, height: 1, pixels: vec![255] },
                pos: None,
            },
        )],
        free: vec![],
    }
}

#[test]
fn full_frame_scenario() {
    let mut app: DirectX11App<i32> = DirectX11App::new_with_state(0);
    // One mouse move at (960, 540), encoded as the platform packs it.
    let lparam: isize = (540 << 16) | 960;
    assert!(app.wnd_proc(WM_MOUSEMOVE, 0, lparam, &quiet()));

    let screen = ScreenSize { width: 1920, height: 1080 };
    let input = app.begin_frame(screen, 1);
    assert_eq!(input.events, vec![InputEvent::PointerMoved(PixelPos { x: 960, y: 540 })]);

    // One triangle covering the screen, plus one degenerate entry that
    // must be dropped.
    let triangle = GpuMesh {
        vertices: vec![vertex_px(0, 0), vertex_px(1920, 0), vertex_px(0, 1080)],
        indices: vec![0, 1, 2],
        tex_id: TextureId::Managed(0),
        rect: full_screen_rect(1920, 1080),
    };
    let degenerate = GpuMesh {
        vertices: vec![vertex_px(0, 0), vertex_px(1, 0), vertex_px(0, 1), vertex_px(1, 1)],
        indices: vec![0, 1, 2, 3],
        tex_id: TextureId::Managed(0),
        rect: full_screen_rect(1, 1),
    };
    let plan = app
        .render_frame(FrameOutput { meshes: vec![triangle, degenerate], delta: font_delta() })
        .unwrap();

    assert_eq!(plan.texture_actions.len(), 1);
    assert!(matches!(plan.texture_actions[0], TextureAction::Create { .. }));
    assert_eq!(plan.draws.len(), 1);
    let den_x: i64 = 1920 * 256;
    let den_y: i64 = 1080 * 256;
    assert_eq!(plan.draws[0].mesh.vertices.len(), 3);
    for v in &plan.draws[0].mesh.vertices {
        assert!(-den_x <= v.x_num && v.x_num <= den_x);
        assert!(-den_y <= v.y_num && v.y_num <= den_y);
    }
    assert_eq!(plan.viewport, ViewportDesc { top_left_x: 0, top_left_y: 0, width: 1920, height: 1080 });

    // The queue was consumed by the frame.
    let next = app.begin_frame(screen, 2);
    assert_eq!(next.events.len(), 0);
}

#[test]
fn missing_texture_is_reported() {
    let mut app: DirectX11App<()> = DirectX11App::new_with_state(());
    let screen = ScreenSize { width: 800, height: 600 };
    app.begin_frame(screen, 1);
    let mesh = GpuMesh {
        vertices: vec![vertex_px(0, 0), vertex_px(1, 0), vertex_px(0, 1)],
        indices: vec![0, 1, 2],
        tex_id: TextureId::User(9),
        rect: full_screen_rect(800, 600),
    };
    let r = app.render_frame(FrameOutput {
        meshes: vec![mesh],
        delta: TexturesDelta { set: vec![], free: vec![] },
    });
    assert_eq!(r.unwrap_err(), OverlayError::TextureMissing { id: TextureId::User(9) });
}

#[test]
fn texture_contract_violations_propagate() {
    let mut app: DirectX11App<()> = DirectX11App::new_with_state(());
    let screen = ScreenSize { width: 800, height: 600 };
    app.begin_frame(screen, 1);
    let delta = TexturesDelta {
        set: vec![(
            TextureId::User(1),
            ImageDelta {
                image: ImageData::Intensity { width: 1, height: 1, pixels: vec![0] },
                pos: Some(egui_d3d11::texture::RegionOrigin { x: 0, y: 0 }),
            },
        )],
        free: vec![],
    };
    let r = app.render_frame(FrameOutput { meshes: vec![], delta });
    assert!(matches!(r, Err(OverlayError::Texture(_))));
}

#[test]
fn construction_variants_set_the_state() {
    let a: DirectX11App<i32> = DirectX11App::new_with_default();
    assert_eq!(*a.state(), 0);
    let b: DirectX11App<i32> = DirectX11App::new_with(|| 5);
    assert_eq!(*b.state(), 5);
}

#[test]
fn user_state_is_reachable() {
    let mut app: DirectX11App<i32> = DirectX11App::new_with_state(41);
    *app.state_mut() += 1;
    assert_eq!(*app.state(), 42);
}

#[test]
fn resize_releases_then_rebuilds_a_fresh_view() {
    let mut app: DirectX11App<()> = DirectX11App::new_with_state(());
    let first = app.resize_buffers(|| 1000);
    assert_eq!(first.released, None);
    let old_view = app.current_render_view().unwrap();
    assert_eq!(old_view, first.rebuild.create);

    let outcome = app.resize_buffers(|| 1001);
    // The old view was handed back for release before the host resize ran.
    assert_eq!(outcome.released, Some(old_view));
    assert_eq!(outcome.rebuild.back_buffer, 1001);
    // The rebuilt view never reuses the old handle.
    assert_ne!(outcome.rebuild.create, old_view);
    assert_eq!(app.current_render_view(), Some(outcome.rebuild.create));
}

#[test]
fn tracker_orders_release_before_rebuild() {
    let mut t = RenderTargetTracker::new();
    assert_eq!(t.current_view(), None);
    let plan = t.rebuild(500);
    assert_eq!(plan.release_first, None);
    assert_eq!(t.current_view(), Some(plan.create));
    let released = t.release_view();
    assert_eq!(released, Some(plan.create));
    assert_eq!(t.current_view(), None);
    let plan2 = t.rebuild(501);
    assert_ne!(plan2.create, plan.create);
    assert_eq!(t.current_view(), Some(plan2.create));
}

#[test]
fn shared_bindings_are_fixed() {
    let blend = blend_state_desc();
    assert!(blend.blend_enable);
    assert!(blend.src_is_source_alpha);
    assert!(blend.dest_is_inverse_source_alpha);
    assert!(blend.write_mask_all);
    let raster = raster_state_desc();
    assert!(raster.fill_solid && raster.cull_none && raster.scissor_enable);
    let sampler = sampler_state_desc();
    assert!(sampler.filter_linear && sampler.address_border);
    let viewport = viewport_desc(ScreenSize { width: 640, height: 480 });
    assert_eq!((viewport.width, viewport.height), (640, 480));
    assert_eq!(vertex_stride(), 32);
    let layout = input_layout_desc();
    assert_eq!(
        layout,
        vec![
            (AttributeFormat::Float2, 0),
            (AttributeFormat::Float2, 8),
            (AttributeFormat::Float4, 16),
        ]
    );
}
