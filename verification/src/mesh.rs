//! Geometry pipeline: converts the GUI's tessellated draw list into
//! GPU-ready meshes, normalizes pixel coordinates into clip space, and
//! derives scissor rectangles.
//!
//! Coordinates are carried in fixed units of 1/256 pixel, so every result
//! here is exact. A normalized coordinate is an exact fraction: the stored
//! numerator over the screen's extent in sub-pixel units, so that the
//! numerator equals minus the denominator at the left or top screen edge
//! and plus the denominator at the right or bottom edge. The embedding
//! application performs the one lossy division when it fills the GPU
//! vertex buffer.

use vstd::arithmetic::div_mod::lemma_fundamental_div_mod;
use vstd::arithmetic::div_mod::lemma_fundamental_div_mod_converse;
use vstd::prelude::*;

use crate::backup::ScissorRect;
use crate::input::ScreenSize;
use crate::texture::TextureId;

verus! {

/// Sub-pixel units per pixel: positions are held in 1/256 pixel steps.
pub const SUBPIXELS_PER_PIXEL: i32 = 256;

/// A position in sub-pixel units, origin at the window's top-left corner,
/// y growing downward.
#[derive(Clone, Copy, PartialEq, Eq, Structural, Debug)]
pub struct SubPos {
    pub x: i32,
    pub y: i32,
}

/// A texture coordinate in units of 1/65536 of the texture's extent.
#[derive(Clone, Copy, PartialEq, Eq, Structural, Debug)]
pub struct TexCoord {
    pub u: u32,
    pub v: u32,
}

/// A color in linear space, one 16-bit word per channel. The perceptual to
/// linear conversion happens when the embedding application builds the
/// vertex, not in the shader input.
#[derive(Clone, Copy, PartialEq, Eq, Structural, Debug)]
pub struct LinearColor {
    pub r: u16,
    pub g: u16,
    pub b: u16,
    pub a: u16,
}

/// One vertex of a tessellated mesh, in pixel space.
#[derive(Clone, Copy, PartialEq, Eq, Structural, Debug)]
pub struct GpuVertex {
    pub pos: SubPos,
    pub uv: TexCoord,
    pub color: LinearColor,
}

/// An axis-aligned rectangle in sub-pixel units.
#[derive(Clone, Copy, PartialEq, Eq, Structural, Debug)]
pub struct SubRect {
    pub min: SubPos,
    pub max: SubPos,
}

/// One draw call's worth of geometry: its vertices, its triangle indices,
/// the texture it samples, and its clip rectangle in screen space.
#[derive(Clone, PartialEq, Debug)]
pub struct GpuMesh {
    pub vertices: Vec<GpuVertex>,
    pub indices: Vec<u32>,
    pub tex_id: TextureId,
    pub rect: SubRect,
}

/// A vertex normalized into clip space. The stored numerators are over the
/// screen's sub-pixel width and height: the real clip coordinate is
/// `x_num` divided by the sub-pixel screen width, and `y_num` divided by
/// the sub-pixel screen height.
#[derive(Clone, Copy, PartialEq, Eq, Structural, Debug)]
pub struct NormalizedVertex {
    pub x_num: i64,
    pub y_num: i64,
    pub uv: TexCoord,
    pub color: LinearColor,
}

/// A mesh ready to draw: normalized vertices, unchanged indices, the
/// texture to sample, and the scissor rectangle in whole pixels, derived
/// from the pre-normalization clip rectangle.
#[derive(Clone, PartialEq, Debug)]
pub struct NormalizedMesh {
    pub vertices: Vec<NormalizedVertex>,
    pub indices: Vec<u32>,
    pub tex_id: TextureId,
    pub scissor: ScissorRect,
}

/// Geometry worth drawing: a non-empty index list that forms whole
/// triangles.
pub open spec fn mesh_geometry_ok(m: GpuMesh) -> bool {
    &&& m.indices@.len() > 0
    &&& m.indices@.len() % 3 == 0
}

/// The meshes that survive the degenerate-geometry filter, in order.
pub open spec fn kept_meshes(s: Seq<GpuMesh>) -> Seq<GpuMesh>
    decreases s.len(),
{
    if s.len() == 0 {
        Seq::empty()
    } else if mesh_geometry_ok(s[0]) {
        seq![s[0]] + kept_meshes(s.skip(1))
    } else {
        kept_meshes(s.skip(1))
    }
}

/// The meshes the filter keeps are exactly those with sound geometry, in
/// order: the head-first definition agrees with the element filter.
pub proof fn lemma_kept_meshes_are_filter(s: Seq<GpuMesh>)
    ensures
        kept_meshes(s) == s.filter(|m: GpuMesh| mesh_geometry_ok(m)),
        forall|i: int| 0 <= i < kept_meshes(s).len() ==> mesh_geometry_ok(
            #[trigger] kept_meshes(s)[i],
        ),
    decreases s.len(),
{
    reveal_with_fuel(Seq::<_>::filter, 2);
    let pred = |m: GpuMesh| mesh_geometry_ok(m);
    if s.len() == 0 {
        assert(s.filter(pred) =~= Seq::<GpuMesh>::empty());
    } else {
        lemma_kept_meshes_are_filter(s.skip(1));
        assert(seq![s[0]] + s.skip(1) =~= s);
        Seq::filter_distributes_over_add(seq![s[0]], s.skip(1), pred);
        assert(seq![s[0]].drop_last() =~= Seq::<GpuMesh>::empty());
        if mesh_geometry_ok(s[0]) {
            assert(seq![s[0]].filter(pred) =~= seq![s[0]]);
        } else {
            assert(seq![s[0]].filter(pred) =~= Seq::<GpuMesh>::empty());
        }
    }
}

/// Converts a tessellated draw list into the list of meshes worth drawing,
/// excluding every entry whose index count is zero or not a multiple of
/// three and keeping the rest in order, unchanged.
pub fn convert_meshes(meshes: Vec<GpuMesh>) -> (out: Vec<GpuMesh>)
    ensures
        out@ == kept_meshes(meshes@),
{
    let mut rest = meshes;
    let mut out: Vec<GpuMesh> = Vec::new();
    let ghost orig = rest@;
    while rest.len() > 0
        invariant
            kept_meshes(orig) == out@ + kept_meshes(rest@),
        decreases rest@.len(),
    {
        let ghost pre = rest@;
        let m = rest.remove(0);
        proof {
            assert(rest@ =~= pre.skip(1));
        }
        if m.indices.len() > 0 && m.indices.len() % 3 == 0 {
            out.push(m);
            proof {
                assert(out@ + kept_meshes(rest@) =~= kept_meshes(orig));
            }
        } else {
            proof {
                assert(out@ + kept_meshes(rest@) =~= kept_meshes(orig));
            }
        }
    }
    proof {
        assert(out@ + kept_meshes(rest@) =~= out@);
    }
    out
}

/// A screen the normalization is defined for: neither extent is zero, and
/// both fit the sub-pixel representation.
pub open spec fn screen_ok(screen: ScreenSize) -> bool {
    &&& 0 < screen.width <= 0x8000
    &&& 0 < screen.height <= 0x8000
}

/// Whether a screen is one the normalization is defined for.
pub fn screen_ok_check(screen: ScreenSize) -> (r: bool)
    ensures
        r == screen_ok(screen),
{
    0 < screen.width && screen.width <= 0x8000 && 0 < screen.height && screen.height <= 0x8000
}

/// The screen's width in sub-pixel units: the common denominator of every
/// normalized x coordinate.
pub open spec fn screen_sub_width(screen: ScreenSize) -> int {
    screen.width * 256
}

/// The screen's height in sub-pixel units: the common denominator of every
/// normalized y coordinate.
pub open spec fn screen_sub_height(screen: ScreenSize) -> int {
    screen.height * 256
}

/// The numerator of a normalized x coordinate over the sub-pixel screen
/// width: `2 * x - width`, so that the screen's left edge maps to minus
/// one, its center to zero and its right edge to plus one.
pub open spec fn clip_x_num(x: int, screen: ScreenSize) -> int {
    2 * x - screen_sub_width(screen)
}

/// The numerator of a normalized y coordinate over the sub-pixel screen
/// height: `height - 2 * y`, so that the screen's top edge maps to plus
/// one, its center to zero and its bottom edge to minus one; y points up
/// in clip space.
pub open spec fn clip_y_num(y: int, screen: ScreenSize) -> int {
    screen_sub_height(screen) - 2 * y
}

/// One vertex carried into clip space; texture coordinate and color pass
/// through unchanged.
pub open spec fn normalized_vertex(v: GpuVertex, screen: ScreenSize) -> NormalizedVertex {
    NormalizedVertex {
        x_num: clip_x_num(v.pos.x as int, screen) as i64,
        y_num: clip_y_num(v.pos.y as int, screen) as i64,
        uv: v.uv,
        color: v.color,
    }
}

/// A sub-pixel coordinate rounded to the nearest whole pixel, halves
/// rounding up.
pub open spec fn pixel_round(v: int) -> int {
    (v + 128) / 256
}

/// The scissor rectangle of a mesh: its pre-normalization clip rectangle,
/// each corner rounded to the nearest pixel.
pub open spec fn scissor_of(rect: SubRect) -> ScissorRect {
    ScissorRect {
        left: pixel_round(rect.min.x as int) as i32,
        top: pixel_round(rect.min.y as int) as i32,
        right: pixel_round(rect.max.x as int) as i32,
        bottom: pixel_round(rect.max.y as int) as i32,
    }
}

/// What normalization does to one mesh: every vertex normalized, indices
/// and texture unchanged, the scissor derived from the pixel-space clip
/// rectangle.
pub open spec fn mesh_normalized(m: GpuMesh, screen: ScreenSize, n: NormalizedMesh) -> bool {
    &&& n.indices@ == m.indices@
    &&& n.tex_id == m.tex_id
    &&& n.scissor == scissor_of(m.rect)
    &&& n.vertices@.len() == m.vertices@.len()
    &&& forall|j: int| 0 <= j < m.vertices@.len() ==> n.vertices@[j] == normalized_vertex(
        #[trigger] m.vertices@[j],
        screen,
    )
}

/// Rounds a sub-pixel coordinate to the nearest whole pixel.
fn round_subpix(v: i32) -> (r: i32)
    ensures
        r as int == pixel_round(v as int),
{
    let t: i64 = v as i64 + 128;
    if t >= 0 {
        let q: u64 = (t as u64) / 256;
        q as i32
    } else {
        let m: u64 = (-t) as u64;
        let d: u64 = (m + 255) / 256;
        proof {
            let gm = m as int;
            let gd = d as int;
            lemma_fundamental_div_mod(gm + 255, 256);
            vstd::arithmetic::div_mod::lemma_mod_bound(gm + 255, 256);
            let rm = (gm + 255) % 256;
            assert(t as int == (-gd) * 256 + (255 - rm));
            lemma_fundamental_div_mod_converse(t as int, 256, -gd, 255 - rm);
        }
        -(d as i32)
    }
}

/// Carries every mesh of a draw list into clip space for the given screen:
/// each vertex position becomes an exact fraction over the screen's
/// sub-pixel extent, and each clip rectangle becomes a whole-pixel scissor
/// rectangle, derived before normalization.
pub fn normalize_meshes(meshes: Vec<GpuMesh>, screen: ScreenSize) -> (out: Vec<NormalizedMesh>)
    requires
        screen_ok(screen),
    ensures
        out@.len() == meshes@.len(),
        forall|i: int| 0 <= i < meshes@.len() ==> mesh_normalized(
            #[trigger] meshes@[i],
            screen,
            out@[i],
        ),
{
    let mut rest = meshes;
    let mut out: Vec<NormalizedMesh> = Vec::new();
    let ghost orig = rest@;
    while rest.len() > 0
        invariant
            screen_ok(screen),
            out@.len() + rest@.len() == orig.len(),
            rest@ == orig.skip(out@.len() as int),
            forall|i: int| 0 <= i < out@.len() ==> mesh_normalized(
                #[trigger] orig[i],
                screen,
                out@[i],
            ),
        decreases rest@.len(),
    {
        let ghost pre = rest@;
        let ghost done = out@.len();
        let m = rest.remove(0);
        proof {
            assert(rest@ =~= pre.skip(1));
            assert(m == orig[done as int]);
            assert(rest@ =~= orig.skip(done as int + 1));
        }
        let n = normalize_mesh(m, screen);
        out.push(n);
    }
    out
}

/// Normalizes one mesh.
fn normalize_mesh(m: GpuMesh, screen: ScreenSize) -> (n: NormalizedMesh)
    requires
        screen_ok(screen),
    ensures
        mesh_normalized(m, screen, n),
{
    let sub_w: i64 = (screen.width as i64) * 256;
    let sub_h: i64 = (screen.height as i64) * 256;
    let mut vertices: Vec<NormalizedVertex> = Vec::new();
    let mut j: usize = 0;
    while j < m.vertices.len()
        invariant
            screen_ok(screen),
            sub_w == screen_sub_width(screen),
            sub_h == screen_sub_height(screen),
            0 <= j <= m.vertices@.len(),
            vertices@.len() == j,
            forall|q: int| 0 <= q < j ==> vertices@[q] == normalized_vertex(
                #[trigger] m.vertices@[q],
                screen,
            ),
        decreases m.vertices@.len() - j,
    {
        let v = m.vertices[j];
        let x_num: i64 = 2 * (v.pos.x as i64) - sub_w;
        let y_num: i64 = sub_h - 2 * (v.pos.y as i64);
        vertices.push(NormalizedVertex { x_num, y_num, uv: v.uv, color: v.color });
        j = j + 1;
    }
    let scissor = ScissorRect {
        left: round_subpix(m.rect.min.x),
        top: round_subpix(m.rect.min.y),
        right: round_subpix(m.rect.max.x),
        bottom: round_subpix(m.rect.max.y),
    };
    NormalizedMesh { vertices, indices: m.indices, tex_id: m.tex_id, scissor }
}

/// Every normalized vertex of an on-screen position lies within the clip
/// range: a position inside the screen has numerators no larger in
/// magnitude than their denominators.
pub proof fn lemma_normalized_in_clip_range(v: GpuVertex, screen: ScreenSize)
    requires
        screen_ok(screen),
        0 <= v.pos.x as int <= screen_sub_width(screen),
        0 <= v.pos.y as int <= screen_sub_height(screen),
    ensures
        -screen_sub_width(screen) <= normalized_vertex(v, screen).x_num as int
            <= screen_sub_width(screen),
        -screen_sub_height(screen) <= normalized_vertex(v, screen).y_num as int
            <= screen_sub_height(screen),
{
}

} // verus!
