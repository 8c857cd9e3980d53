//! The frame orchestrator: one instance owns the input collector, the
//! texture allocator, the pipeline state guard and the render-target
//! tracker, and sequences the three per-frame phases — collect input, run
//! the GUI frame, render — in that strict order.
//!
//! The GUI frame itself runs outside this crate: the embedding application
//! takes the [`FrameInput`] that [`DirectX11App::begin_frame`] returns,
//! runs the GUI against it, and hands the tessellated result back as a
//! [`FrameOutput`]. [`DirectX11App::render_frame`] then resolves the
//! texture delta, filters and normalizes the geometry, resolves each
//! draw's texture binding, and returns the complete, ordered render plan
//! the application executes between a pipeline-state save and restore.

use vstd::prelude::*;

use crate::backup::BackupState;
use crate::backup::DeviceState;
use crate::backup::DeviceStateView;
use crate::backup::captured_view;
use crate::backup::empty_device_view;
use crate::backup::restored_view;
use crate::input::FrameInput;
use crate::input::InputCollector;
use crate::input::InputEvent;
use crate::input::Modifiers;
use crate::input::ScreenSize;
use crate::input::SystemInput;
use crate::input::WM_CHAR;
use crate::input::collect_remaining;
use crate::input::collect_returned;
use crate::input::text_message_appends;
use crate::input::translated_events;
use crate::mesh::GpuMesh;
use crate::mesh::NormalizedMesh;
use crate::mesh::convert_meshes;
use crate::mesh::kept_meshes;
use crate::mesh::mesh_normalized;
use crate::mesh::normalize_meshes;
use crate::mesh::screen_ok;
use crate::render_target::RebuildPlan;
use crate::render_target::RenderTargetTracker;
use crate::render_target::TrackerView;
use crate::render_target::tracker_wf;
use crate::texture::AllocView;
use crate::texture::TexView;
use crate::texture::TextureAction;
use crate::texture::TextureAllocator;
use crate::texture::TextureError;
use crate::texture::TextureId;
use crate::texture::TexturesDelta;
use crate::texture::alloc_wf;
use crate::texture::delta_applied;
use crate::texture::delta_view;
use crate::texture::delta_wf;
use crate::texture::texture_key;

verus! {

/// Where one present call stands: idle between frames, or between the
/// input collection and the render of the same frame. The three phases of
/// a frame never overlap and never run out of order.
#[derive(Clone, Copy, PartialEq, Eq, Structural, Debug)]
pub enum FramePhase {
    Idle,
    AwaitingFrameOutput,
}

/// What one GUI frame produced: the tessellated draw list and the texture
/// delta, both consumed destructively by the render phase.
#[derive(Clone, PartialEq, Debug)]
pub struct FrameOutput {
    pub meshes: Vec<GpuMesh>,
    pub delta: TexturesDelta,
}

/// The blend factors the overlay binds for its own pass: straight alpha
/// over the host's image, all channels written, blend operations adding.
#[derive(Clone, Copy, PartialEq, Eq, Structural, Debug)]
pub struct BlendStateDesc {
    pub blend_enable: bool,
    pub src_is_source_alpha: bool,
    pub dest_is_inverse_source_alpha: bool,
    pub src_alpha_is_one: bool,
    pub dest_alpha_is_inverse_source_alpha: bool,
    pub write_mask_all: bool,
}

/// The rasterizer mode the overlay binds: solid fill, no culling, scissor
/// test on.
#[derive(Clone, Copy, PartialEq, Eq, Structural, Debug)]
pub struct RasterStateDesc {
    pub fill_solid: bool,
    pub cull_none: bool,
    pub scissor_enable: bool,
}

/// The one viewport the overlay binds: the whole screen, full depth range.
#[derive(Clone, Copy, PartialEq, Eq, Structural, Debug)]
pub struct ViewportDesc {
    pub top_left_x: u32,
    pub top_left_y: u32,
    pub width: u32,
    pub height: u32,
}

/// The sampler the overlay binds: linear filtering, border addressing.
#[derive(Clone, Copy, PartialEq, Eq, Structural, Debug)]
pub struct SamplerStateDesc {
    pub filter_linear: bool,
    pub address_border: bool,
}

/// One vertex attribute of the overlay's input layout.
#[derive(Clone, Copy, PartialEq, Eq, Structural, Debug)]
pub enum AttributeFormat {
    /// Two 32-bit floating-point words.
    Float2,
    /// Four 32-bit floating-point words.
    Float4,
}

/// The blend state the overlay binds.
pub open spec fn overlay_blend_spec() -> BlendStateDesc {
    BlendStateDesc {
        blend_enable: true,
        src_is_source_alpha: true,
        dest_is_inverse_source_alpha: true,
        src_alpha_is_one: true,
        dest_alpha_is_inverse_source_alpha: true,
        write_mask_all: true,
    }
}

/// The rasterizer state the overlay binds.
pub open spec fn overlay_raster_spec() -> RasterStateDesc {
    RasterStateDesc { fill_solid: true, cull_none: true, scissor_enable: true }
}

/// The viewport the overlay binds for a screen.
pub open spec fn overlay_viewport_spec(screen: ScreenSize) -> ViewportDesc {
    ViewportDesc { top_left_x: 0, top_left_y: 0, width: screen.width, height: screen.height }
}

/// The sampler the overlay binds.
pub open spec fn overlay_sampler_spec() -> SamplerStateDesc {
    SamplerStateDesc { filter_linear: true, address_border: true }
}

/// The blend state bound once before the overlay's draws.
pub fn blend_state_desc() -> (d: BlendStateDesc)
    ensures
        d == overlay_blend_spec(),
{
    BlendStateDesc {
        blend_enable: true,
        src_is_source_alpha: true,
        dest_is_inverse_source_alpha: true,
        src_alpha_is_one: true,
        dest_alpha_is_inverse_source_alpha: true,
        write_mask_all: true,
    }
}

/// The rasterizer state bound once before the overlay's draws.
pub fn raster_state_desc() -> (d: RasterStateDesc)
    ensures
        d == overlay_raster_spec(),
{
    RasterStateDesc { fill_solid: true, cull_none: true, scissor_enable: true }
}

/// The viewport bound once before the overlay's draws: the whole screen.
pub fn viewport_desc(screen: ScreenSize) -> (d: ViewportDesc)
    ensures
        d == overlay_viewport_spec(screen),
{
    ViewportDesc { top_left_x: 0, top_left_y: 0, width: screen.width, height: screen.height }
}

/// The sampler bound once before the overlay's draws.
pub fn sampler_state_desc() -> (d: SamplerStateDesc)
    ensures
        d == overlay_sampler_spec(),
{
    SamplerStateDesc { filter_linear: true, address_border: true }
}

/// The overlay's vertex attributes, in buffer order: position, texture
/// coordinate, color, at the byte offsets of a tightly packed vertex.
pub fn input_layout_desc() -> (attrs: Vec<(AttributeFormat, u32)>)
    ensures
        attrs@.len() == 3,
        attrs@[0] == (AttributeFormat::Float2, 0u32),
        attrs@[1] == (AttributeFormat::Float2, 8u32),
        attrs@[2] == (AttributeFormat::Float4, 16u32),
{
    let mut attrs: Vec<(AttributeFormat, u32)> = Vec::new();
    attrs.push((AttributeFormat::Float2, 0));
    attrs.push((AttributeFormat::Float2, 8));
    attrs.push((AttributeFormat::Float4, 16));
    attrs
}

/// The byte stride of one GPU vertex: two position words, two texture
/// coordinate words, four color words, four bytes each.
pub fn vertex_stride() -> (s: u32)
    ensures
        s == 32,
{
    32
}

/// One draw call of the render plan: the normalized mesh, with its scissor
/// rectangle, and the shader-visible texture resource to bind for it.
#[derive(Clone, PartialEq, Debug)]
pub struct DrawCall {
    pub mesh: NormalizedMesh,
    pub resource: u64,
}

/// Everything the embedding application performs for one frame's render
/// phase, in order: resolve the texture actions, save the pipeline state,
/// bind the shared state once, then for each draw bind its buffers,
/// scissor rectangle and texture and issue it, and restore the pipeline
/// state unconditionally.
#[derive(Clone, PartialEq, Debug)]
pub struct RenderPlan {
    pub texture_actions: Vec<TextureAction>,
    pub viewport: ViewportDesc,
    pub blend: BlendStateDesc,
    pub raster: RasterStateDesc,
    pub sampler: SamplerStateDesc,
    pub draws: Vec<DrawCall>,
}

/// Why a frame's render phase was abandoned.
#[derive(Clone, Copy, PartialEq, Eq, Structural, Debug)]
pub enum OverlayError {
    /// The texture delta violated its contract.
    Texture(TextureError),
    /// A surviving mesh samples a texture the allocator does not hold.
    TextureMissing { id: TextureId },
}

/// The first mesh, in draw order, whose texture the allocator does not
/// hold, if any.
pub open spec fn first_missing_texture(
    kept: Seq<GpuMesh>,
    textures: Map<u128, TexView>,
) -> Option<TextureId>
    decreases kept.len(),
{
    if kept.len() == 0 {
        None
    } else if !textures.contains_key(texture_key(kept[0].tex_id)) {
        Some(kept[0].tex_id)
    } else {
        first_missing_texture(kept.skip(1), textures)
    }
}

/// The draw calls realize the surviving meshes exactly: one draw per mesh,
/// in order, each normalized for the screen and bound to the resource the
/// allocator holds for its texture identifier.
pub open spec fn draws_match(
    kept: Seq<GpuMesh>,
    screen: ScreenSize,
    textures: Map<u128, TexView>,
    draws: Seq<DrawCall>,
) -> bool {
    &&& draws.len() == kept.len()
    &&& forall|i: int| 0 <= i < kept.len() ==> {
        &&& mesh_normalized(#[trigger] kept[i], screen, draws[i].mesh)
        &&& textures.contains_key(texture_key(kept[i].tex_id))
        &&& draws[i].resource == textures[texture_key(kept[i].tex_id)].resource
    }
}

/// What a resize performed: the view released before the host's resize
/// ran, and the rebuild done after it.
#[derive(Clone, Copy, PartialEq, Eq, Structural, Debug)]
pub struct ResizeOutcome {
    pub released: Option<u64>,
    pub rebuild: RebuildPlan,
}

/// The overlay's whole state: input collection, texture ownership, the
/// pipeline state guard, the render-target tracker, the caller's own
/// state, and the frame phase.
pub struct DirectX11App<T> {
    input_collector: InputCollector,
    tex_alloc: TextureAllocator,
    backup: BackupState,
    render_view: RenderTargetTracker,
    state: T,
    phase: FramePhase,
    screen: ScreenSize,
}

impl<T> DirectX11App<T> {
    /// The events queued for the next frame.
    pub closed spec fn queued_events(&self) -> Seq<InputEvent> {
        self.input_collector.queued()
    }

    /// The latest frame time stamped, for monotonicity.
    pub closed spec fn last_time(&self) -> u64 {
        self.input_collector.last_time()
    }

    /// The texture allocator's value.
    pub closed spec fn textures(&self) -> AllocView {
        self.tex_alloc@
    }

    /// The render-target tracker's value.
    pub closed spec fn target(&self) -> TrackerView {
        self.render_view@
    }

    /// The pipeline bindings the state guard holds.
    pub closed spec fn held_bindings(&self) -> DeviceStateView {
        self.backup.held()
    }

    /// The frame phase.
    pub closed spec fn phase(&self) -> FramePhase {
        self.phase
    }

    /// The screen stamped by the current frame's input collection.
    pub closed spec fn screen(&self) -> ScreenSize {
        self.screen
    }

    /// The caller's own state.
    pub closed spec fn user_state(&self) -> T {
        self.state
    }

    /// The orchestrator's invariant: the allocator and the tracker are
    /// well formed and the stamped screen is one the geometry pipeline is
    /// defined for.
    pub open spec fn wf(&self) -> bool {
        &&& alloc_wf(self.textures())
        &&& tracker_wf(self.target())
        &&& screen_ok(self.screen())
    }

    /// Everything but the input queue and the time stamp is unchanged.
    pub open spec fn only_input_changed(&self, pre: &DirectX11App<T>) -> bool {
        &&& self.textures() == pre.textures()
        &&& self.target() == pre.target()
        &&& self.held_bindings() == pre.held_bindings()
        &&& self.phase() == pre.phase()
        &&& self.screen() == pre.screen()
        &&& self.user_state() == pre.user_state()
    }

    /// A freshly constructed overlay: nothing collected, nothing
    /// allocated, nothing held and no view bound.
    pub open spec fn is_fresh(&self) -> bool {
        &&& self.wf()
        &&& self.phase() is Idle
        &&& self.queued_events() == Seq::<InputEvent>::empty()
        &&& self.last_time() == 0
        &&& self.textures().textures == Map::<u128, TexView>::empty()
        &&& self.textures().next_handle == 0
        &&& self.target().view is None
        &&& self.target().next_handle == 0
        &&& self.held_bindings() == empty_device_view()
    }

    /// An overlay around the given caller state, with nothing collected,
    /// nothing allocated, nothing held and no view bound. The screen is a
    /// one-pixel placeholder until the first frame stamps a real one.
    pub fn new_with_state(state: T) -> (app: DirectX11App<T>)
        ensures
            app.is_fresh(),
            app.user_state() == state,
    {
        DirectX11App {
            input_collector: InputCollector::new(),
            tex_alloc: TextureAllocator::new(),
            backup: BackupState::new(),
            render_view: RenderTargetTracker::new(),
            state,
            phase: FramePhase::Idle,
            screen: ScreenSize { width: 1, height: 1 },
        }
    }

    /// An overlay whose caller state is the type's default value.
    pub fn new_with_default() -> (app: DirectX11App<T>) where T: Default
        ensures
            app.is_fresh(),
            call_ensures(T::default, (), app.user_state()),
    {
        DirectX11App::new_with_state(T::default())
    }

    /// An overlay whose caller state a closure builds.
    pub fn new_with<F: FnOnce() -> T>(state: F) -> (app: DirectX11App<T>)
        requires
            call_requires(state, ()),
        ensures
            app.is_fresh(),
            call_ensures(state, (), app.user_state()),
    {
        DirectX11App::new_with_state(state())
    }

    /// The caller's state.
    pub fn state(&self) -> (r: &T)
        ensures
            *r == self.user_state(),
    {
        &self.state
    }

    /// Mutable access to the caller's state; nothing else changes.
    pub fn state_mut(&mut self) -> (r: &mut T)
        ensures
            *r == old(self).user_state(),
            final(self).user_state() == *final(r),
            final(self).queued_events() == old(self).queued_events(),
            final(self).last_time() == old(self).last_time(),
            final(self).textures() == old(self).textures(),
            final(self).target() == old(self).target(),
            final(self).held_bindings() == old(self).held_bindings(),
            final(self).phase() == old(self).phase(),
            final(self).screen() == old(self).screen(),
    {
        &mut self.state
    }

    /// Translates one window message into queued input events; the
    /// message is still meant to reach the host's own handler, so the
    /// caller forwards it regardless of the result.
    pub fn wnd_proc(&mut self, umsg: u32, wparam: usize, lparam: isize, sys: &SystemInput) -> (
        handled: bool)
        ensures
            handled,
            umsg != WM_CHAR ==> final(self).queued_events() == old(self).queued_events()
                + translated_events(umsg, wparam, lparam, *sys),
            umsg == WM_CHAR ==> {
                &&& old(self).queued_events().len() <= final(self).queued_events().len()
                &&& final(self).queued_events().subrange(
                    0,
                    old(self).queued_events().len() as int,
                ) == old(self).queued_events()
                &&& text_message_appends(
                    wparam,
                    final(self).queued_events().skip(old(self).queued_events().len() as int),
                )
            },
            final(self).last_time() == old(self).last_time(),
            final(self).only_input_changed(old(self)),
            old(self).wf() ==> final(self).wf(),
    {
        let _ = self.input_collector.process(umsg, wparam, lparam, sys);
        true
    }

    /// Opens a frame: drains the queued events into a [`FrameInput`]
    /// stamped with the given screen and time, and moves to the layout
    /// phase. The time stamp never goes backwards within a session.
    pub fn begin_frame(&mut self, screen: ScreenSize, time_ticks: u64) -> (input: FrameInput)
        requires
            old(self).wf(),
            old(self).phase() is Idle,
            screen_ok(screen),
        ensures
            final(self).wf(),
            final(self).phase() is AwaitingFrameOutput,
            final(self).screen() == screen,
            input.events@ == collect_returned(old(self).queued_events()),
            final(self).queued_events() == collect_remaining(old(self).queued_events()),
            input.screen == screen,
            input.time_ticks == if time_ticks >= old(self).last_time() {
                time_ticks
            } else {
                old(self).last_time()
            },
            final(self).last_time() == input.time_ticks,
            input.modifiers == (Modifiers {
                alt: false,
                ctrl: false,
                shift: false,
                mac_cmd: false,
                command: false,
            }),
            final(self).textures() == old(self).textures(),
            final(self).target() == old(self).target(),
            final(self).held_bindings() == old(self).held_bindings(),
            final(self).user_state() == old(self).user_state(),
    {
        let input = self.input_collector.collect_input(screen, time_ticks);
        self.screen = screen;
        self.phase = FramePhase::AwaitingFrameOutput;
        input
    }

    /// Closes a frame: resolves the texture delta, filters out degenerate
    /// meshes, normalizes the survivors for the stamped screen, binds each
    /// to the resource the allocator holds for its texture, and returns
    /// the ordered render plan; or reports the first contract violation
    /// and abandons the frame. Either way the orchestrator is idle again.
    pub fn render_frame(&mut self, output: FrameOutput) -> (r: Result<RenderPlan, OverlayError>)
        requires
            old(self).wf(),
            old(self).phase() is AwaitingFrameOutput,
            delta_wf(delta_view(output.delta)),
            old(self).textures().next_handle + 2 * output.delta.set@.len() <= u64::MAX,
        ensures
            final(self).wf(),
            final(self).phase() is Idle,
            final(self).screen() == old(self).screen(),
            final(self).target() == old(self).target(),
            final(self).held_bindings() == old(self).held_bindings(),
            final(self).queued_events() == old(self).queued_events(),
            final(self).last_time() == old(self).last_time(),
            final(self).user_state() == old(self).user_state(),
            match delta_applied(old(self).textures(), delta_view(output.delta)) {
                Err(e) => r == Err::<RenderPlan, OverlayError>(OverlayError::Texture(e)),
                Ok(va) => {
                    &&& final(self).textures() == va.0
                    &&& match first_missing_texture(kept_meshes(output.meshes@), va.0.textures) {
                        Some(id) => r == Err::<RenderPlan, OverlayError>(
                            OverlayError::TextureMissing { id },
                        ),
                        None => r matches Ok(plan) && {
                            &&& plan.texture_actions@ == va.1
                            &&& draws_match(
                                kept_meshes(output.meshes@),
                                old(self).screen(),
                                va.0.textures,
                                plan.draws@,
                            )
                            &&& plan.viewport == overlay_viewport_spec(old(self).screen())
                            &&& plan.blend == overlay_blend_spec()
                            &&& plan.raster == overlay_raster_spec()
                            &&& plan.sampler == overlay_sampler_spec()
                        },
                    }
                },
            },
    {
        let ghost dv0 = delta_view(output.delta);
        let ghost meshes0 = output.meshes@;
        let ghost init_tex = old(self).textures();
        let FrameOutput { meshes, delta } = output;
        self.phase = FramePhase::Idle;
        let actions = match self.tex_alloc.resolve_delta(delta) {
            Ok(a) => a,
            Err(e) => {
                return Err(OverlayError::Texture(e));
            },
        };
        let ghost post_tex = self.tex_alloc@;
        let ghost actionsv = actions@;
        let kept = convert_meshes(meshes);
        let ghost keptv = kept@;
        let ghost tvm = self.tex_alloc@.textures;
        let screen = self.screen;
        let normd = normalize_meshes(kept, screen);
        let ghost normdv = normd@;
        let mut rest = normd;
        let mut draws: Vec<DrawCall> = Vec::new();
        proof {
            assert(normdv.skip(0) =~= normdv);
            assert(keptv.skip(0) =~= keptv);
        }
        while rest.len() > 0
            invariant
                self.wf(),
                self.phase() is Idle,
                self.screen() == old(self).screen(),
                self.target() == old(self).target(),
                self.held_bindings() == old(self).held_bindings(),
                self.queued_events() == old(self).queued_events(),
                self.last_time() == old(self).last_time(),
                self.user_state() == old(self).user_state(),
                self.textures() == post_tex,
                delta_applied(init_tex, dv0) == Ok::<_, TextureError>((post_tex, actionsv)),
                init_tex == old(self).textures(),
                dv0 == delta_view(output.delta),
                keptv == kept_meshes(meshes0),
                meshes0 == output.meshes@,
                actions@ == actionsv,
                screen == old(self).screen(),
                draws@.len() + rest@.len() == keptv.len(),
                normdv.len() == keptv.len(),
                rest@ == normdv.skip(draws@.len() as int),
                tvm == post_tex.textures,
                forall|i: int| 0 <= i < keptv.len() ==> mesh_normalized(
                    #[trigger] keptv[i],
                    screen,
                    normdv[i],
                ),
                forall|i: int| 0 <= i < draws@.len() ==> {
                    &&& mesh_normalized(#[trigger] keptv[i], screen, draws@[i].mesh)
                    &&& tvm.contains_key(texture_key(keptv[i].tex_id))
                    &&& draws@[i].resource == tvm[texture_key(keptv[i].tex_id)].resource
                },
                first_missing_texture(keptv, tvm) == first_missing_texture(
                    keptv.skip(draws@.len() as int),
                    tvm,
                ),
            decreases rest@.len(),
        {
            let ghost k = draws@.len() as int;
            let ghost pre_rest = rest@;
            let n = rest.remove(0);
            proof {
                assert(rest@ =~= pre_rest.skip(1));
                assert(n == normdv[k]);
                assert(mesh_normalized(keptv[k], screen, n));
                assert(n.tex_id == keptv[k].tex_id);
                assert(rest@ =~= normdv.skip(k + 1));
            }
            match self.tex_alloc.lookup(n.tex_id) {
                Some(t) => {
                    let resource = t.resource;
                    draws.push(DrawCall { mesh: n, resource });
                    proof {
                        assert(keptv.skip(k).skip(1) =~= keptv.skip(k + 1));
                        assert(keptv.skip(k)[0] == keptv[k]);
                    }
                },
                None => {
                    proof {
                        assert(keptv.skip(k)[0] == keptv[k]);
                        assert(first_missing_texture(keptv.skip(k), tvm) == Some(
                            keptv[k].tex_id,
                        ));
                    }
                    return Err(OverlayError::TextureMissing { id: n.tex_id });
                },
            }
        }
        proof {
            assert(keptv.skip(keptv.len() as int) =~= Seq::<GpuMesh>::empty());
        }
        Ok(
            RenderPlan {
                texture_actions: actions,
                viewport: viewport_desc(screen),
                blend: blend_state_desc(),
                raster: raster_state_desc(),
                sampler: sampler_state_desc(),
                draws,
            },
        )
    }

    /// The texture allocator, for reading the stored snapshots that the
    /// render plan's create and upload actions refer to.
    pub fn texture_allocator(&self) -> (r: &TextureAllocator)
        ensures
            r@ == self.textures(),
    {
        &self.tex_alloc
    }

    /// Whether the allocator can absorb the delta's set entries; what
    /// [`DirectX11App::render_frame`] requires beyond a well-formed delta.
    pub fn can_absorb_delta(&self, delta: &TexturesDelta) -> (r: bool)
        ensures
            r == (self.textures().next_handle + 2 * delta.set@.len() <= u64::MAX),
    {
        self.tex_alloc.can_absorb(delta)
    }

    /// Captures every live pipeline binding into the state guard; the
    /// render plan's bindings and draws come next, and the matching
    /// restore must follow them.
    pub fn save_pipeline_state(&mut self, live: &DeviceState)
        ensures
            final(self).held_bindings() == captured_view(live@),
            final(self).queued_events() == old(self).queued_events(),
            final(self).last_time() == old(self).last_time(),
            final(self).textures() == old(self).textures(),
            final(self).target() == old(self).target(),
            final(self).phase() == old(self).phase(),
            final(self).screen() == old(self).screen(),
            final(self).user_state() == old(self).user_state(),
            old(self).wf() ==> final(self).wf(),
    {
        self.backup.save(live);
    }

    /// Writes every captured binding back over the live state and
    /// releases everything the guard held; unconditional after a frame's
    /// draws, whether or not they all succeeded.
    pub fn restore_pipeline_state(&mut self, live: &mut DeviceState)
        ensures
            final(live)@ == restored_view(old(self).held_bindings(), old(live)@),
            final(self).held_bindings() == empty_device_view(),
            final(self).queued_events() == old(self).queued_events(),
            final(self).last_time() == old(self).last_time(),
            final(self).textures() == old(self).textures(),
            final(self).target() == old(self).target(),
            final(self).phase() == old(self).phase(),
            final(self).screen() == old(self).screen(),
            final(self).user_state() == old(self).user_state(),
            old(self).wf() ==> final(self).wf(),
    {
        self.backup.restore(live);
    }

    /// The render-target view a draw would use, if one is bound.
    pub fn current_render_view(&self) -> (r: Option<u64>)
        ensures
            r == self.target().view,
    {
        self.render_view.current_view()
    }

    /// Rebuilds the render-target view after the swap chain's buffers
    /// changed, in the one safe order: the old view is released first,
    /// the host's own resize runs with no view held, and only then is a
    /// view of the new back buffer built, under a handle that never
    /// equals the old one. The closure performs the host's resize and
    /// returns the new back buffer.
    pub fn resize_buffers<F: FnOnce() -> u64>(&mut self, resize: F) -> (outcome: ResizeOutcome)
        requires
            call_requires(resize, ()),
            old(self).wf(),
            old(self).target().next_handle + 1 <= u64::MAX,
        ensures
            final(self).wf(),
            outcome.released == old(self).target().view,
            final(self).target().view == Some(outcome.rebuild.create),
            outcome.rebuild.create as int == old(self).target().next_handle,
            (old(self).target().view matches Some(h) ==> outcome.rebuild.create != h),
            call_ensures(resize, (), outcome.rebuild.back_buffer),
            final(self).queued_events() == old(self).queued_events(),
            final(self).last_time() == old(self).last_time(),
            final(self).textures() == old(self).textures(),
            final(self).held_bindings() == old(self).held_bindings(),
            final(self).phase() == old(self).phase(),
            final(self).screen() == old(self).screen(),
            final(self).user_state() == old(self).user_state(),
    {
        let released = self.render_view.release_view();
        let back_buffer = resize();
        let rebuild = self.render_view.rebuild(back_buffer);
        ResizeOutcome { released, rebuild }
    }
}

} // verus!
