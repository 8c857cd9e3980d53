//! Shader stage descriptors.
//!
//! Each shader stage is a tagged value carrying its entry-point and target
//! profile as data; a single function dispatches on the tag. Compilation of
//! shader source and creation of the GPU shader objects happen in the
//! embedding application; this module fixes what is compiled and records the
//! compiled form.

use vstd::prelude::*;

verus! {

/// The two shader stages the overlay binds for its own draw pass.
#[derive(Clone, Copy, PartialEq, Eq, Structural, Debug)]
pub enum ShaderStage {
    Vertex,
    Pixel,
}

/// Entry-point name for a stage, as it appears in the shader source.
pub fn entry_point(stage: ShaderStage) -> (r: &'static str)
    ensures
        stage is Vertex ==> r@ == "vs_main"@,
        stage is Pixel ==> r@ == "ps_main"@,
{
    match stage {
        ShaderStage::Vertex => "vs_main",
        ShaderStage::Pixel => "ps_main",
    }
}

/// Target profile a stage is compiled against.
pub fn target_profile(stage: ShaderStage) -> (r: &'static str)
    ensures
        stage is Vertex ==> r@ == "vs_5_0"@,
        stage is Pixel ==> r@ == "ps_5_0"@,
{
    match stage {
        ShaderStage::Vertex => "vs_5_0",
        ShaderStage::Pixel => "ps_5_0",
    }
}


/// The overlay's two compiled shaders, held as opaque GPU handles, and
/// the vertex shader's bytecode, kept because creating the input layout
/// needs it again. The embedding application compiles the source and
/// creates the GPU objects; this records what came back.
pub struct CompiledShaders {
    /// Handle of the created vertex shader.
    pub vertex: u64,
    /// Handle of the created pixel shader.
    pub pixel: u64,
    /// The vertex shader's compiled form, kept for input-layout creation.
    pub bytecode: Vec<u8>,
}

impl CompiledShaders {
    /// The retained vertex-shader bytecode.
    pub open spec fn bytecode_view(&self) -> Seq<u8> {
        self.bytecode@
    }

    /// Records the two created shaders and the vertex bytecode.
    pub fn new(vertex: u64, pixel: u64, vertex_bytecode: Vec<u8>) -> (s: CompiledShaders)
        ensures
            s.vertex == vertex,
            s.pixel == pixel,
            s.bytecode_view() == vertex_bytecode@,
    {
        CompiledShaders { vertex, pixel, bytecode: vertex_bytecode }
    }

    /// The vertex shader's bytecode, as the input-layout creation needs it.
    pub fn get_vertex_bytecode(&self) -> (r: &Vec<u8>)
        ensures
            r@ == self.bytecode_view(),
    {
        &self.bytecode
    }

    /// The length of the vertex shader's bytecode in bytes.
    pub fn get_vertex_bytecode_len(&self) -> (r: usize)
        ensures
            r == self.bytecode_view().len(),
    {
        self.bytecode.len()
    }
}

} // verus!
