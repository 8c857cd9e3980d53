use egui_d3d11::input::ScreenSize;
use egui_d3d11::mesh::{
    convert_meshes, normalize_meshes, GpuMesh, GpuVertex, LinearColor, SubPos, SubRect, TexCoord,
};
use egui_d3d11::texture::TextureId;

fn vertex(x: i32, y: i32) -> GpuVertex {
    GpuVertex {
        pos: SubPos { x, y },
        uv: TexCoord { u: 0, v: 0 },
        color: LinearColor { r: 65535, g: 65535, b: 65535, a: 65535 },
    }
}

fn vertex_px(x: i32, y: i32) -> GpuVertex {
    vertex(x * 256, y * 256)
}

fn mesh_with_indices(indices: Vec<u32>) -> GpuMesh {
    GpuMesh {
        vertices: vec![vertex_px(0, 0), vertex_px(1, 0), vertex_px(0, 1), vertex_px(1, 1)],
        indices,
        tex_id: TextureId::Managed(0),
        rect: SubRect { min: SubPos { x: 0, y: 0 }, max: SubPos { x: 256, y: 256 } },
    }
}

#[test]
fn degenerate_meshes_are_filtered() {
    let meshes = vec![
        mesh_with_indices(vec![0, 1, 2, 3]),
        mesh_with_indices(vec![]),
        mesh_with_indices(vec![0, 1, 2]),
    ];
    let kept = convert_meshes(meshes);
    assert_eq!(kept.len(), 1);
    assert_eq!(kept[0].indices, vec![0, 1, 2]);
}

#[test]
fn filter_keeps_order_and_content() {
    let meshes = vec![
        mesh_with_indices(vec![0, 1, 2]),
        mesh_with_indices(vec![0, 1, 2, 3]),
        mesh_with_indices(vec![2, 1, 0, 3, 2, 1]),
    ];
    let kept = convert_meshes(meshes);
    assert_eq!(kept.len(), 2);
    assert_eq!(kept[0].indices, vec![0, 1, 2]);
    assert_eq!(kept[1].indices, vec![2, 1, 0, 3, 2, 1]);
}

#[test]
fn normalization_maps_the_reference_points() {
    let screen = ScreenSize { width: 800, height: 600 };
    let den_x: i64 = 800 * 256;
    let den_y: i64 = 600 * 256;
    let mesh = GpuMesh {
        vertices: vec![vertex_px(400, 300), vertex_px(0, 0), vertex_px(800, 600)],
        indices: vec![0, 1, 2],
        tex_id: TextureId::Managed(0),
        rect: SubRect { min: SubPos { x: 0, y: 0 }, max: SubPos { x: 800 * 256, y: 600 * 256 } },
    };
    let normalized = normalize_meshes(vec![mesh], screen);
    assert_eq!(normalized.len(), 1);
    let v = &normalized[0].vertices;
    // pixel (400, 300), the screen center, maps to clip (0, 0)
    assert_eq!((v[0].x_num, v[0].y_num), (0, 0));
    // pixel (0, 0), the top-left corner, maps to clip (-1, 1)
    assert_eq!((v[1].x_num, v[1].y_num), (-den_x, den_y));
    // pixel (800, 600), the bottom-right corner, maps to clip (1, -1)
    assert_eq!((v[2].x_num, v[2].y_num), (den_x, -den_y));
}

#[test]
fn normalization_passes_uv_and_color_through() {
    let screen = ScreenSize { width: 800, height: 600 };
    let v = GpuVertex {
        pos: SubPos { x: 256, y: 512 },
        uv: TexCoord { u: 123, v: 456 },
        color: LinearColor { r: 1, g: 2, b: 3, a: 4 },
    };
    let mesh = GpuMesh {
        vertices: vec![v],
        indices: vec![0, 0, 0],
        tex_id: TextureId::User(7),
        rect: SubRect { min: SubPos { x: 0, y: 0 }, max: SubPos { x: 256, y: 256 } },
    };
    let normalized = normalize_meshes(vec![mesh], screen);
    assert_eq!(normalized[0].vertices[0].uv, TexCoord { u: 123, v: 456 });
    assert_eq!(normalized[0].vertices[0].color, LinearColor { r: 1, g: 2, b: 3, a: 4 });
    assert_eq!(normalized[0].tex_id, TextureId::User(7));
    assert_eq!(normalized[0].indices, vec![0, 0, 0]);
}

#[test]
fn scissor_rounds_to_nearest_pixel() {
    let screen = ScreenSize { width: 800, height: 600 };
    // 383 sub-pixels is 1.496 pixels, rounding to 1;
    // 384 sub-pixels is exactly 1.5 pixels, rounding up to 2.
    let mesh = GpuMesh {
        vertices: vec![vertex_px(0, 0)],
        indices: vec![0, 0, 0],
        tex_id: TextureId::Managed(0),
        rect: SubRect { min: SubPos { x: 383, y: 384 }, max: SubPos { x: 1000, y: 1024 } },
    };
    let normalized = normalize_meshes(vec![mesh], screen);
    let s = normalized[0].scissor;
    assert_eq!(s.left, 1);
    assert_eq!(s.top, 2);
    assert_eq!(s.right, 4); // 1000 / 256 = 3.906..., rounding to 4
    assert_eq!(s.bottom, 4);
}

#[test]
fn scissor_rounds_negative_coordinates() {
    let screen = ScreenSize { width: 800, height: 600 };
    // -384 sub-pixels is -1.5 pixels; halves round up, toward zero here.
    let mesh = GpuMesh {
        vertices: vec![vertex_px(0, 0)],
        indices: vec![0, 0, 0],
        tex_id: TextureId::Managed(0),
        rect: SubRect { min: SubPos { x: -384, y: -385 }, max: SubPos { x: 0, y: 0 } },
    };
    let normalized = normalize_meshes(vec![mesh], screen);
    let s = normalized[0].scissor;
    assert_eq!(s.left, -1);
    assert_eq!(s.top, -2); // -385 is just past -1.5 pixels, rounding to -2
    assert_eq!(s.right, 0);
    assert_eq!(s.bottom, 0);
}
