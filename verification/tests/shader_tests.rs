use egui_d3d11::shader::{entry_point, target_profile, CompiledShaders, ShaderStage};

#[test]
fn stage_entry_points() {
    assert_eq!(entry_point(ShaderStage::Vertex), "vs_main");
    assert_eq!(entry_point(ShaderStage::Pixel), "ps_main");
}

#[test]
fn stage_target_profiles() {
    assert_eq!(target_profile(ShaderStage::Vertex), "vs_5_0");
    assert_eq!(target_profile(ShaderStage::Pixel), "ps_5_0");
}

#[test]
fn compiled_shaders_keep_the_vertex_bytecode() {
    let shaders = CompiledShaders::new(7, 8, vec![1, 2, 3, 4]);
    assert_eq!(shaders.vertex, 7);
    assert_eq!(shaders.pixel, 8);
    assert_eq!(shaders.get_vertex_bytecode(), &vec![1, 2, 3, 4]);
    assert_eq!(shaders.get_vertex_bytecode_len(), 4);
}
