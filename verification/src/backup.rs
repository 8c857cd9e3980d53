//! Pipeline state guard: snapshots every pipeline binding the overlay is
//! about to overwrite and restores each one after the overlay's draw pass.
//!
//! The bindings are mirrored here as plain values: object bindings are
//! opaque handles, depth values and blend factors are opaque 32-bit words.
//! The embedding application reads the live bindings into a [`DeviceState`]
//! before the overlay draws and writes the restored mirror back afterwards;
//! what is proved here is that the snapshot captures every field and that
//! the restore hands every field back unchanged, releasing everything the
//! snapshot held.

use vstd::prelude::*;

verus! {

/// A scissor rectangle binding, in integer pixels.
#[derive(Clone, Copy, PartialEq, Eq, Structural, Debug)]
pub struct ScissorRect {
    pub left: i32,
    pub top: i32,
    pub right: i32,
    pub bottom: i32,
}

/// A viewport binding. The six fields are the bit patterns of the values the
/// rendering API reports; the guard never interprets them.
#[derive(Clone, Copy, PartialEq, Eq, Structural, Debug)]
pub struct Viewport {
    pub top_left_x: u32,
    pub top_left_y: u32,
    pub width: u32,
    pub height: u32,
    pub min_depth: u32,
    pub max_depth: u32,
}

/// A blend factor: four color channels as opaque 32-bit words.
#[derive(Clone, Copy, PartialEq, Eq, Structural, Debug)]
pub struct BlendFactor {
    pub r: u32,
    pub g: u32,
    pub b: u32,
    pub a: u32,
}

/// The complete set of pipeline bindings the overlay touches, mirrored as
/// plain values. Object bindings are opaque handles; `None` is an unbound
/// slot.
#[derive(Clone, PartialEq, Eq, Debug)]
pub struct DeviceState {
    pub scissor_rects: Vec<ScissorRect>,
    pub viewports: Vec<Viewport>,
    pub raster_state: Option<u64>,
    pub blend_state: Option<u64>,
    pub blend_factor: BlendFactor,
    pub blend_mask: u32,
    pub depth_stencil_state: Option<u64>,
    pub stencil_ref: u32,
    pub pixel_shader_resource: Option<u64>,
    pub sampler: Option<u64>,
    pub vertex_shader: Option<u64>,
    pub vertex_shader_instances: Vec<u64>,
    pub geometry_shader: Option<u64>,
    pub geometry_shader_instances: Vec<u64>,
    pub pixel_shader: Option<u64>,
    pub pixel_shader_instances: Vec<u64>,
    pub constant_buffer: Option<u64>,
    pub primitive_topology: u32,
    pub index_buffer: Option<u64>,
    pub index_buffer_format: u32,
    pub index_buffer_offset: u32,
    pub vertex_buffer: Option<u64>,
    pub vertex_buffer_stride: u32,
    pub vertex_buffer_offset: u32,
    pub input_layout: Option<u64>,
}

/// The mathematical value of a [`DeviceState`]: every binding, with the
/// bound arrays as sequences.
#[verifier::ext_equal]
pub struct DeviceStateView {
    pub scissor_rects: Seq<ScissorRect>,
    pub viewports: Seq<Viewport>,
    pub raster_state: Option<u64>,
    pub blend_state: Option<u64>,
    pub blend_factor: BlendFactor,
    pub blend_mask: u32,
    pub depth_stencil_state: Option<u64>,
    pub stencil_ref: u32,
    pub pixel_shader_resource: Option<u64>,
    pub sampler: Option<u64>,
    pub vertex_shader: Option<u64>,
    pub vertex_shader_instances: Seq<u64>,
    pub geometry_shader: Option<u64>,
    pub geometry_shader_instances: Seq<u64>,
    pub pixel_shader: Option<u64>,
    pub pixel_shader_instances: Seq<u64>,
    pub constant_buffer: Option<u64>,
    pub primitive_topology: u32,
    pub index_buffer: Option<u64>,
    pub index_buffer_format: u32,
    pub index_buffer_offset: u32,
    pub vertex_buffer: Option<u64>,
    pub vertex_buffer_stride: u32,
    pub vertex_buffer_offset: u32,
    pub input_layout: Option<u64>,
}

impl View for DeviceState {
    type V = DeviceStateView;

    open spec fn view(&self) -> DeviceStateView {
        DeviceStateView {
            scissor_rects: self.scissor_rects@,
            viewports: self.viewports@,
            raster_state: self.raster_state,
            blend_state: self.blend_state,
            blend_factor: self.blend_factor,
            blend_mask: self.blend_mask,
            depth_stencil_state: self.depth_stencil_state,
            stencil_ref: self.stencil_ref,
            pixel_shader_resource: self.pixel_shader_resource,
            sampler: self.sampler,
            vertex_shader: self.vertex_shader,
            vertex_shader_instances: self.vertex_shader_instances@,
            geometry_shader: self.geometry_shader,
            geometry_shader_instances: self.geometry_shader_instances@,
            pixel_shader: self.pixel_shader,
            pixel_shader_instances: self.pixel_shader_instances@,
            constant_buffer: self.constant_buffer,
            primitive_topology: self.primitive_topology,
            index_buffer: self.index_buffer,
            index_buffer_format: self.index_buffer_format,
            index_buffer_offset: self.index_buffer_offset,
            vertex_buffer: self.vertex_buffer,
            vertex_buffer_stride: self.vertex_buffer_stride,
            vertex_buffer_offset: self.vertex_buffer_offset,
            input_layout: self.input_layout,
        }
    }
}

/// A device state with nothing bound and nothing held.
pub open spec fn empty_device_view() -> DeviceStateView {
    DeviceStateView {
        scissor_rects: Seq::empty(),
        viewports: Seq::empty(),
        raster_state: None,
        blend_state: None,
        blend_factor: BlendFactor { r: 0, g: 0, b: 0, a: 0 },
        blend_mask: 0,
        depth_stencil_state: None,
        stencil_ref: 0,
        pixel_shader_resource: None,
        sampler: None,
        vertex_shader: None,
        vertex_shader_instances: Seq::empty(),
        geometry_shader: None,
        geometry_shader_instances: Seq::empty(),
        pixel_shader: None,
        pixel_shader_instances: Seq::empty(),
        constant_buffer: None,
        primitive_topology: 0,
        index_buffer: None,
        index_buffer_format: 0,
        index_buffer_offset: 0,
        vertex_buffer: None,
        vertex_buffer_stride: 0,
        vertex_buffer_offset: 0,
        input_layout: None,
    }
}

/// What a save captures from the live bindings: all of them, unchanged.
pub open spec fn captured_view(live: DeviceStateView) -> DeviceStateView {
    live
}

/// What the live bindings are after a restore: the captured snapshot,
/// whatever was bound in the meantime.
pub open spec fn restored_view(
    captured: DeviceStateView,
    meanwhile: DeviceStateView,
) -> DeviceStateView {
    captured
}

/// Snapshot and restore bracket the overlay draw exactly: for any sequence
/// of state-mutating calls made between the save and the restore, every
/// binding read after the restore equals the binding read before the save.
pub proof fn lemma_restore_undoes_everything(
    before: DeviceStateView,
    meanwhile: DeviceStateView,
)
    ensures
        restored_view(captured_view(before), meanwhile) == before,
{
}

impl DeviceState {
    /// A state with nothing bound; what a fresh guard holds.
    pub fn empty() -> (s: DeviceState)
        ensures
            s@ == empty_device_view(),
    {
        let s = DeviceState {
            scissor_rects: Vec::new(),
            viewports: Vec::new(),
            raster_state: None,
            blend_state: None,
            blend_factor: BlendFactor { r: 0, g: 0, b: 0, a: 0 },
            blend_mask: 0,
            depth_stencil_state: None,
            stencil_ref: 0,
            pixel_shader_resource: None,
            sampler: None,
            vertex_shader: None,
            vertex_shader_instances: Vec::new(),
            geometry_shader: None,
            geometry_shader_instances: Vec::new(),
            pixel_shader: None,
            pixel_shader_instances: Vec::new(),
            constant_buffer: None,
            primitive_topology: 0,
            index_buffer: None,
            index_buffer_format: 0,
            index_buffer_offset: 0,
            vertex_buffer: None,
            vertex_buffer_stride: 0,
            vertex_buffer_offset: 0,
            input_layout: None,
        };
        assert(s@ =~= empty_device_view());
        s
    }
}

/// An element-for-element copy of a vector of plain values.
fn copied_vec<T: Copy>(v: &Vec<T>) -> (r: Vec<T>)
    ensures
        r@ == v@,
{
    let mut r: Vec<T> = Vec::new();
    let mut i: usize = 0;
    while i < v.len()
        invariant
            0 <= i <= v@.len(),
            r@ == v@.subrange(0, i as int),
        decreases v@.len() - i,
    {
        r.push(v[i]);
        i = i + 1;
    }
    assert(r@ =~= v@);
    r
}

/// The fields a save fills and a restore writes back and releases.
struct InnerState {
    captured: DeviceState,
}

impl InnerState {
    fn save(&mut self, live: &DeviceState)
        ensures
            final(self).captured@ == captured_view(live@),
    {
        self.captured = DeviceState {
            scissor_rects: copied_vec(&live.scissor_rects),
            viewports: copied_vec(&live.viewports),
            raster_state: live.raster_state,
            blend_state: live.blend_state,
            blend_factor: live.blend_factor,
            blend_mask: live.blend_mask,
            depth_stencil_state: live.depth_stencil_state,
            stencil_ref: live.stencil_ref,
            pixel_shader_resource: live.pixel_shader_resource,
            sampler: live.sampler,
            vertex_shader: live.vertex_shader,
            vertex_shader_instances: copied_vec(&live.vertex_shader_instances),
            geometry_shader: live.geometry_shader,
            geometry_shader_instances: copied_vec(&live.geometry_shader_instances),
            pixel_shader: live.pixel_shader,
            pixel_shader_instances: copied_vec(&live.pixel_shader_instances),
            constant_buffer: live.constant_buffer,
            primitive_topology: live.primitive_topology,
            index_buffer: live.index_buffer,
            index_buffer_format: live.index_buffer_format,
            index_buffer_offset: live.index_buffer_offset,
            vertex_buffer: live.vertex_buffer,
            vertex_buffer_stride: live.vertex_buffer_stride,
            vertex_buffer_offset: live.vertex_buffer_offset,
            input_layout: live.input_layout,
        };
        assert(self.captured@ =~= live@);
    }

    fn restore(&mut self, live: &mut DeviceState)
        ensures
            final(live)@ == restored_view(old(self).captured@, old(live)@),
            final(self).captured@ == empty_device_view(),
    {
        let mut released = DeviceState::empty();
        core::mem::swap(&mut self.captured, &mut released);
        *live = released;
        assert(self.captured@ =~= empty_device_view());
    }
}

/// The pipeline state guard. A save must precede the overlay's own binding
/// calls and the matching restore must follow its last draw; the restore is
/// unconditional, so a failed draw still leaves the host's bindings intact.
pub struct BackupState {
    inner: InnerState,
}

impl BackupState {
    /// A guard holding nothing.
    pub fn new() -> (b: BackupState)
        ensures
            b.held() == empty_device_view(),
    {
        BackupState { inner: InnerState { captured: DeviceState::empty() } }
    }

    /// The bindings the guard currently holds.
    pub closed spec fn held(&self) -> DeviceStateView {
        self.inner.captured@
    }

    /// Captures every live binding into the guard.
    pub fn save(&mut self, live: &DeviceState)
        ensures
            final(self).held() == captured_view(live@),
    {
        self.inner.save(live);
    }

    /// Writes every captured binding back over the live state and releases
    /// everything the guard held.
    pub fn restore(&mut self, live: &mut DeviceState)
        ensures
            final(live)@ == restored_view(old(self).held(), old(live)@),
            final(self).held() == empty_device_view(),
    {
        self.inner.restore(live);
    }
}

} // verus!
