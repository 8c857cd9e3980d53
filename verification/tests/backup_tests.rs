use egui_d3d11::backup::{BackupState, BlendFactor, DeviceState, ScissorRect, Viewport};

fn sample_state() -> DeviceState {
    DeviceState {
        scissor_rects: vec![ScissorRect { left: 1, top: 2, right: 300, bottom: 400 }],
        viewports: vec![Viewport {
            top_left_x: 0,
            top_left_y: 0,
            width: 800,
            height: 600,
            min_depth: 0,
            max_depth: 0x3F800000,
        }],
        raster_state: Some(11),
        blend_state: Some(12),
        blend_factor: BlendFactor { r: 1, g: 2, b: 3, a: 4 },
        blend_mask: 0xFFFFFFFF,
        depth_stencil_state: Some(13),
        stencil_ref: 7,
        pixel_shader_resource: Some(14),
        sampler: Some(15),
        vertex_shader: Some(16),
        vertex_shader_instances: vec![21, 22],
        geometry_shader: None,
        geometry_shader_instances: vec![],
        pixel_shader: Some(17),
        pixel_shader_instances: vec![23],
        constant_buffer: Some(18),
        primitive_topology: 4,
        index_buffer: Some(19),
        index_buffer_format: 42,
        index_buffer_offset: 0,
        vertex_buffer: Some(20),
        vertex_buffer_stride: 32,
        vertex_buffer_offset: 0,
        input_layout: Some(25),
    }
}

fn scrambled() -> DeviceState {
    DeviceState {
        scissor_rects: vec![],
        viewports: vec![],
        raster_state: None,
        blend_state: Some(99),
        blend_factor: BlendFactor { r: 9, g: 9, b: 9, a: 9 },
        blend_mask: 0,
        depth_stencil_state: None,
        stencil_ref: 99,
        pixel_shader_resource: Some(98),
        sampler: None,
        vertex_shader: Some(97),
        vertex_shader_instances: vec![1],
        geometry_shader: Some(96),
        geometry_shader_instances: vec![2, 3, 4],
        pixel_shader: None,
        pixel_shader_instances: vec![],
        constant_buffer: None,
        primitive_topology: 1,
        index_buffer: None,
        index_buffer_format: 0,
        index_buffer_offset: 5,
        vertex_buffer: None,
        vertex_buffer_stride: 0,
        vertex_buffer_offset: 9,
        input_layout: None,
    }
}

#[test]
fn restore_undoes_any_mutation() {
    let before = sample_state();
    let mut guard = BackupState::new();
    guard.save(&before);
    // The overlay's own pass rebinds everything; model that as an
    // arbitrary scramble of the live bindings.
    let mut live = scrambled();
    guard.restore(&mut live);
    assert_eq!(live, before);
}

#[test]
fn restore_releases_what_the_guard_held() {
    let mut guard = BackupState::new();
    guard.save(&sample_state());
    let mut live = scrambled();
    guard.restore(&mut live);
    // Everything the snapshot held was handed back or released: a second
    // restore writes the empty state, not a stale copy.
    let mut second = sample_state();
    guard.restore(&mut second);
    assert_eq!(second, DeviceState::empty());
}

#[test]
fn save_then_immediate_restore_is_identity() {
    let before = sample_state();
    let mut guard = BackupState::new();
    guard.save(&before);
    let mut live = before.clone();
    guard.restore(&mut live);
    assert_eq!(live, before);
}
