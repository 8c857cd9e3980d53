//! Texture resource management: a mapping from texture identifier to
//! allocated GPU texture, updated once per frame from the GUI's texture
//! delta.
//!
//! GPU objects are tracked as opaque handles drawn from a counter that
//! never repeats, so a freed or replaced texture's handles are provably
//! never the handles of a live one. The pixel data of every live texture is
//! kept as a snapshot, so a partial update patches the snapshot here and
//! the embedding application re-uploads it; allocation, upload and release
//! of the real GPU objects follow the action list a delta resolution
//! returns.

use vstd::arithmetic::div_mod::lemma_fundamental_div_mod;
use vstd::arithmetic::div_mod::lemma_fundamental_div_mod_converse;
use vstd::prelude::*;
use std::collections::HashMap;

verus! {

broadcast use vstd::std_specs::hash::group_hash_axioms;

/// An opaque texture identifier. One reserved value, `Managed(0)`, is the
/// GUI's own font atlas.
#[derive(Clone, Copy, PartialEq, Eq, Structural, Debug, Hash)]
pub enum TextureId {
    /// A texture the GUI engine manages itself.
    Managed(u64),
    /// A texture registered by the embedding application.
    User(u64),
}

/// The identifier reserved for the GUI's font atlas.
pub open spec fn font_atlas_id() -> TextureId {
    TextureId::Managed(0)
}

/// First map key used for user texture identifiers; managed identifiers
/// sit below it, so the two ranges never meet.
pub const USER_KEY_BASE: u128 = 0x1_0000_0000_0000_0000;

/// The map key a texture identifier is stored under. Managed identifiers
/// map below [`USER_KEY_BASE`], user identifiers at or above it, so the
/// encoding is one to one.
pub open spec fn texture_key(id: TextureId) -> u128 {
    match id {
        TextureId::Managed(n) => n as u128,
        TextureId::User(n) => (USER_KEY_BASE + n as u128) as u128,
    }
}

/// The key encoding distinguishes distinct identifiers, so the allocator
/// holds exactly one entry per live identifier.
pub proof fn lemma_texture_key_injective(a: TextureId, b: TextureId)
    ensures
        texture_key(a) == texture_key(b) ==> a == b,
{
}

/// The pixel formats the GPU textures use.
#[derive(Clone, Copy, PartialEq, Eq, Structural, Debug)]
pub enum TextureFormat {
    /// Single-channel intensity, one byte per pixel.
    R8Unorm,
    /// Four-channel color, four bytes per pixel.
    Rgba8Unorm,
}

/// Pixel data for one texture, row-major. Color pixels are packed as one
/// 32-bit word per pixel.
#[derive(Clone, PartialEq, Eq, Debug)]
pub enum ImageData {
    Intensity { width: usize, height: usize, pixels: Vec<u8> },
    Color { width: usize, height: usize, pixels: Vec<u32> },
}

/// The mathematical value of an image: its extent and its pixel rows.
#[verifier::ext_equal]
pub enum ImageView {
    Intensity { width: int, height: int, pixels: Seq<u8> },
    Color { width: int, height: int, pixels: Seq<u32> },
}

impl View for ImageData {
    type V = ImageView;

    open spec fn view(&self) -> ImageView {
        match self {
            ImageData::Intensity { width, height, pixels } => ImageView::Intensity {
                width: *width as int,
                height: *height as int,
                pixels: pixels@,
            },
            ImageData::Color { width, height, pixels } => ImageView::Color {
                width: *width as int,
                height: *height as int,
                pixels: pixels@,
            },
        }
    }
}

pub open spec fn image_width(img: ImageView) -> int {
    match img {
        ImageView::Intensity { width, .. } => width,
        ImageView::Color { width, .. } => width,
    }
}

pub open spec fn image_height(img: ImageView) -> int {
    match img {
        ImageView::Intensity { height, .. } => height,
        ImageView::Color { height, .. } => height,
    }
}

/// The GPU format an image calls for: intensity data is single-channel,
/// color data four-channel.
pub open spec fn image_format_of(img: ImageView) -> TextureFormat {
    match img {
        ImageView::Intensity { .. } => TextureFormat::R8Unorm,
        ImageView::Color { .. } => TextureFormat::Rgba8Unorm,
    }
}

/// A well-formed image holds exactly one pixel per cell of its extent.
pub open spec fn image_wf(img: ImageView) -> bool {
    match img {
        ImageView::Intensity { width, height, pixels } => {
            &&& 0 <= width
            &&& 0 <= height
            &&& pixels.len() == width * height
        },
        ImageView::Color { width, height, pixels } => {
            &&& 0 <= width
            &&& 0 <= height
            &&& pixels.len() == width * height
        },
    }
}

impl ImageData {
    /// The image's width in pixels.
    pub fn width(&self) -> (w: usize)
        ensures
            w as int == image_width(self@),
    {
        match self {
            ImageData::Intensity { width, .. } => *width,
            ImageData::Color { width, .. } => *width,
        }
    }

    /// The image's height in pixels.
    pub fn height(&self) -> (h: usize)
        ensures
            h as int == image_height(self@),
    {
        match self {
            ImageData::Intensity { height, .. } => *height,
            ImageData::Color { height, .. } => *height,
        }
    }
}

/// The GPU format matching an image's pixel layout.
pub fn get_image_format(image: &ImageData) -> (f: TextureFormat)
    ensures
        f == image_format_of(image@),
{
    match image {
        ImageData::Intensity { .. } => TextureFormat::R8Unorm,
        ImageData::Color { .. } => TextureFormat::Rgba8Unorm,
    }
}

/// One texture the allocator owns: its two GPU handles, its format, and a
/// snapshot of its pixel data for partial updates.
#[derive(Clone, PartialEq, Eq, Debug)]
pub struct AllocatedTexture {
    pub texture: u64,
    pub resource: u64,
    pub format: TextureFormat,
    pub image: ImageData,
}

/// The mathematical value of an allocated texture.
#[verifier::ext_equal]
pub struct TexView {
    pub texture: u64,
    pub resource: u64,
    pub format: TextureFormat,
    pub image: ImageView,
}

impl View for AllocatedTexture {
    type V = TexView;

    open spec fn view(&self) -> TexView {
        TexView {
            texture: self.texture,
            resource: self.resource,
            format: self.format,
            image: self.image@,
        }
    }
}

impl AllocatedTexture {
    /// The shader-visible resource view bound when a mesh samples this
    /// texture.
    pub fn resource(&self) -> (r: u64)
        ensures
            r == self.texture_view().resource,
    {
        self.resource
    }

    /// The texture's mathematical value.
    pub open spec fn texture_view(&self) -> TexView {
        self@
    }
}

/// The top-left corner of a partial update's target region, in pixels.
#[derive(Clone, Copy, PartialEq, Eq, Structural, Debug)]
pub struct RegionOrigin {
    pub x: usize,
    pub y: usize,
}

/// One set entry of a texture delta: new pixel data, either for the whole
/// texture or, when an origin is present, for a sub-region of it.
#[derive(Clone, PartialEq, Debug)]
pub struct ImageDelta {
    pub image: ImageData,
    pub pos: Option<RegionOrigin>,
}

/// The per-frame texture delta the GUI engine produces: textures to set,
/// then identifiers to free.
#[derive(Clone, PartialEq, Debug)]
pub struct TexturesDelta {
    pub set: Vec<(TextureId, ImageDelta)>,
    pub free: Vec<TextureId>,
}

/// One GPU operation the embedding application must perform after a delta
/// resolution, in list order.
#[derive(Clone, Copy, PartialEq, Eq, Structural, Debug)]
pub enum TextureAction {
    /// Create a texture and its shader-visible view under fresh handles;
    /// the initial pixel data is the allocator's snapshot for `id`.
    Create { id: TextureId, texture: u64, resource: u64, format: TextureFormat },
    /// Re-upload the allocator's (just patched) snapshot for `id` to the
    /// existing texture.
    Upload { id: TextureId, texture: u64 },
    /// Release a texture and its shader-visible view.
    Free { texture: u64, resource: u64 },
}

/// Why a delta could not be resolved. Each is a contract violation by the
/// producer of the delta, reported distinctly from GPU failures.
#[derive(Clone, Copy, PartialEq, Eq, Structural, Debug)]
pub enum TextureError {
    /// A partial update named an identifier with no prior full image.
    PartialWithoutPrior { id: TextureId },
    /// A partial update's pixel format differs from the stored texture's.
    FormatMismatch { id: TextureId },
    /// A partial update's region reaches outside the stored texture.
    RegionOutOfBounds { id: TextureId },
}

/// The mathematical value of one set entry.
#[verifier::ext_equal]
pub struct SetEntryView {
    pub id: TextureId,
    pub image: ImageView,
    pub pos: Option<RegionOrigin>,
}

/// The mathematical value of a texture delta.
#[verifier::ext_equal]
pub struct DeltaView {
    pub set: Seq<SetEntryView>,
    pub free: Seq<TextureId>,
}

/// The mathematical values of a list of set entries.
pub open spec fn set_views(s: Seq<(TextureId, ImageDelta)>) -> Seq<SetEntryView> {
    Seq::new(s.len(), |i: int| SetEntryView { id: s[i].0, image: s[i].1.image@, pos: s[i].1.pos })
}

/// The mathematical value of a delta: every set entry and the free list.
pub open spec fn delta_view(d: TexturesDelta) -> DeltaView {
    DeltaView { set: set_views(d.set@), free: d.free@ }
}

/// A delta is well formed when every image it sets is.
pub open spec fn delta_wf(d: DeltaView) -> bool {
    forall|i: int| 0 <= i < d.set.len() ==> image_wf(#[trigger] d.set[i].image)
}

/// The mathematical value of the allocator: the stored textures by map key,
/// and the next unissued handle.
#[verifier::ext_equal]
pub struct AllocView {
    pub textures: Map<u128, TexView>,
    pub next_handle: int,
}

/// The allocator's invariant: every stored image is well formed, every
/// stored format matches its image, and every issued handle lies below the
/// counter, so handles never repeat.
pub open spec fn alloc_wf(v: AllocView) -> bool {
    &&& 0 <= v.next_handle
    &&& forall|k: u128| #[trigger] v.textures.contains_key(k) ==> {
        &&& image_wf(v.textures[k].image)
        &&& v.textures[k].format == image_format_of(v.textures[k].image)
        &&& v.textures[k].texture < v.next_handle
        &&& v.textures[k].resource < v.next_handle
    }
}

/// The pixel of the patched image at cell `idx`: the patch's pixel where
/// the cell lies inside the patched region, the base image's elsewhere.
pub open spec fn patched_pixel<T>(
    base: Seq<T>,
    base_w: int,
    patch: Seq<T>,
    patch_w: int,
    patch_h: int,
    ox: int,
    oy: int,
    idx: int,
) -> T {
    let x = idx % base_w;
    let y = idx / base_w;
    if ox <= x < ox + patch_w && oy <= y < oy + patch_h {
        patch[(y - oy) * patch_w + (x - ox)]
    } else {
        base[idx]
    }
}

/// A base image with a patch written over the region of extent
/// `patch_w` by `patch_h` whose top-left cell is `(ox, oy)`.
pub open spec fn patched_seq<T>(
    base: Seq<T>,
    base_w: int,
    patch: Seq<T>,
    patch_w: int,
    patch_h: int,
    ox: int,
    oy: int,
) -> Seq<T> {
    Seq::new(base.len(), |idx: int| patched_pixel(base, base_w, patch, patch_w, patch_h, ox, oy, idx))
}

/// The image produced by a partial update: the stored image with the new
/// pixel data written over the region starting at the origin. Meaningful
/// only when the two images have the same pixel layout.
pub open spec fn patched_image(base: ImageView, patch: ImageView, ox: int, oy: int) -> ImageView {
    match (base, patch) {
        (
            ImageView::Intensity { width, height, pixels },
            ImageView::Intensity { width: pw, height: ph, pixels: pp },
        ) => ImageView::Intensity {
            width,
            height,
            pixels: patched_seq(pixels, width, pp, pw, ph, ox, oy),
        },
        (
            ImageView::Color { width, height, pixels },
            ImageView::Color { width: pw, height: ph, pixels: pp },
        ) => ImageView::Color {
            width,
            height,
            pixels: patched_seq(pixels, width, pp, pw, ph, ox, oy),
        },
        _ => base,
    }
}

/// Freeing one identifier: the entry leaves the map and its handles are
/// released; freeing an absent identifier does nothing and is no error.
pub open spec fn freed_one(s: AllocView, id: TextureId) -> (AllocView, Seq<TextureAction>) {
    let k = texture_key(id);
    if s.textures.contains_key(k) {
        let t = s.textures[k];
        (
            AllocView { textures: s.textures.remove(k), next_handle: s.next_handle },
            seq![TextureAction::Free { texture: t.texture, resource: t.resource }],
        )
    } else {
        (s, Seq::empty())
    }
}

/// Freeing a list of identifiers, in order.
pub open spec fn freed_all(s: AllocView, free: Seq<TextureId>) -> (AllocView, Seq<TextureAction>)
    decreases free.len(),
{
    if free.len() == 0 {
        (s, Seq::empty())
    } else {
        let (s1, a1) = freed_one(s, free[0]);
        let (s2, a2) = freed_all(s1, free.skip(1));
        (s2, a1 + a2)
    }
}

/// Applying one set entry.
///
/// With a region origin, the entry is a partial update: it requires a
/// stored texture of matching format whose extent contains the region, and
/// patches the stored snapshot, to be re-uploaded; anything else is a
/// distinct, explicit error. Without an origin it is a full image: a brand
/// new texture under two fresh handles replaces any previous entry, whose
/// handles are released.
pub open spec fn set_one(s: AllocView, e: SetEntryView) -> Result<
    (AllocView, Seq<TextureAction>),
    TextureError,
> {
    let k = texture_key(e.id);
    match e.pos {
        Some(origin) => {
            if !s.textures.contains_key(k) {
                Err(TextureError::PartialWithoutPrior { id: e.id })
            } else {
                let t = s.textures[k];
                if image_format_of(e.image) != t.format {
                    Err(TextureError::FormatMismatch { id: e.id })
                } else if origin.x + image_width(e.image) > image_width(t.image) || origin.y
                    + image_height(e.image) > image_height(t.image) {
                    Err(TextureError::RegionOutOfBounds { id: e.id })
                } else {
                    let t2 = TexView {
                        texture: t.texture,
                        resource: t.resource,
                        format: t.format,
                        image: patched_image(t.image, e.image, origin.x as int, origin.y as int),
                    };
                    Ok(
                        (
                            AllocView {
                                textures: s.textures.insert(k, t2),
                                next_handle: s.next_handle,
                            },
                            seq![TextureAction::Upload { id: e.id, texture: t.texture }],
                        ),
                    )
                }
            }
        },
        None => {
            let t2 = TexView {
                texture: s.next_handle as u64,
                resource: (s.next_handle + 1) as u64,
                format: image_format_of(e.image),
                image: e.image,
            };
            let create = TextureAction::Create {
                id: e.id,
                texture: t2.texture,
                resource: t2.resource,
                format: t2.format,
            };
            let acts = if s.textures.contains_key(k) {
                seq![
                    TextureAction::Free {
                        texture: s.textures[k].texture,
                        resource: s.textures[k].resource,
                    },
                    create,
                ]
            } else {
                seq![create]
            };
            Ok(
                (
                    AllocView {
                        textures: s.textures.insert(k, t2),
                        next_handle: s.next_handle + 2,
                    },
                    acts,
                ),
            )
        },
    }
}

/// Applying a list of set entries, in order, stopping at the first error.
pub open spec fn set_all(s: AllocView, sets: Seq<SetEntryView>) -> Result<
    (AllocView, Seq<TextureAction>),
    TextureError,
>
    decreases sets.len(),
{
    if sets.len() == 0 {
        Ok((s, Seq::empty()))
    } else {
        match set_one(s, sets[0]) {
            Err(e) => Err(e),
            Ok((s1, a1)) => match set_all(s1, sets.skip(1)) {
                Err(e) => Err(e),
                Ok((s2, a2)) => Ok((s2, a1 + a2)),
            },
        }
    }
}

/// Resolving a whole delta: all frees, then all sets, in order.
pub open spec fn delta_applied(s: AllocView, d: DeltaView) -> Result<
    (AllocView, Seq<TextureAction>),
    TextureError,
> {
    let (s1, a1) = freed_all(s, d.free);
    match set_all(s1, d.set) {
        Err(e) => Err(e),
        Ok((s2, a2)) => Ok((s2, a1 + a2)),
    }
}

/// After a free, the identifier is absent from the allocated map.
pub proof fn lemma_free_removes_entry(s: AllocView, id: TextureId)
    ensures
        !freed_one(s, id).0.textures.contains_key(texture_key(id)),
{
}

/// Setting a full image for an already allocated identifier releases the
/// old GPU objects and stores the entry under handles that differ from the
/// old ones: the old resource is freed, never leaked and never reused.
pub proof fn lemma_full_set_replaces_and_frees(s: AllocView, e: SetEntryView)
    requires
        alloc_wf(s),
        s.next_handle + 2 <= u64::MAX,
        e.pos is None,
        s.textures.contains_key(texture_key(e.id)),
    ensures
        set_one(s, e) matches Ok((s2, acts)) && {
            let old_entry = s.textures[texture_key(e.id)];
            let new_entry = s2.textures[texture_key(e.id)];
            &&& acts[0] == TextureAction::Free {
                texture: old_entry.texture,
                resource: old_entry.resource,
            }
            &&& acts.len() == 2
            &&& new_entry.texture != old_entry.texture
            &&& new_entry.resource != old_entry.resource
            &&& new_entry.image == e.image
        },
{
    let k = texture_key(e.id);
    assert(s.textures.contains_key(k));
    assert(s.textures[k].texture < s.next_handle);
}


/// A base sequence with the patch applied to the cells whose linear patch
/// index lies below `done`; the intermediate states of a region write.
spec fn patched_prefix<T>(
    base: Seq<T>,
    base_w: int,
    patch: Seq<T>,
    patch_w: int,
    patch_h: int,
    ox: int,
    oy: int,
    done: int,
) -> Seq<T> {
    Seq::new(
        base.len(),
        |idx: int|
            {
                let x = idx % base_w;
                let y = idx / base_w;
                if ox <= x < ox + patch_w && oy <= y < oy + patch_h && (y - oy) * patch_w + (x
                    - ox) < done {
                    patch[(y - oy) * patch_w + (x - ox)]
                } else {
                    base[idx]
                }
            },
    )
}

/// Writes a patch over the region of a row-major pixel vector whose
/// top-left cell is `(ox, oy)`.
fn patch_pixels<T: Copy>(
    base: &mut Vec<T>,
    base_w: usize,
    base_h: usize,
    patch: &Vec<T>,
    patch_w: usize,
    patch_h: usize,
    ox: usize,
    oy: usize,
)
    requires
        old(base)@.len() == base_w * base_h,
        patch@.len() == patch_w * patch_h,
        ox + patch_w <= base_w,
        oy + patch_h <= base_h,
    ensures
        final(base)@ == patched_seq(
            old(base)@,
            base_w as int,
            patch@,
            patch_w as int,
            patch_h as int,
            ox as int,
            oy as int,
        ),
{
    let ghost orig = base@;
    let ghost bw = base_w as int;
    let ghost pw = patch_w as int;
    let ghost ph = patch_h as int;
    let ghost gox = ox as int;
    let ghost goy = oy as int;
    let mut p: usize = 0;
    while p < patch.len()
        invariant
            orig.len() == base_w * base_h,
            patch@.len() == patch_w * patch_h,
            ox + patch_w <= base_w,
            oy + patch_h <= base_h,
            0 <= p <= patch@.len(),
            base@.len() == orig.len(),
            base@ == patched_prefix(orig, bw, patch@, pw, ph, gox, goy, p as int),
            bw == base_w && pw == patch_w && ph == patch_h && gox == ox && goy == oy,
        decreases patch@.len() - p,
    {
        proof {
            if patch_w == 0 {
                assert(patch@.len() == 0);
            }
        }
        let j: usize = p / patch_w;
        let i: usize = p % patch_w;
        proof {
            lemma_fundamental_div_mod(p as int, pw);
            assert(0 <= i < pw);
            assert(j < ph) by (nonlinear_arith)
                requires
                    p as int == pw * (j as int) + (i as int),
                    0 <= (i as int),
                    (p as int) < pw * ph,
                    pw > 0,
                    0 <= (j as int),
            ;
        }
        let row: usize = oy + j;
        let col: usize = ox + i;
        proof {
            assert((row as int) * bw + (col as int) < orig.len()) by (nonlinear_arith)
                requires
                    (row as int) <= (base_h as int) - 1,
                    (col as int) < bw,
                    bw > 0,
                    0 <= (row as int),
                    orig.len() == bw * (base_h as int),
            ;
        }
        let len_fits: usize = base.len();
        proof {
            assert(orig.len() == len_fits as int);
        }
        let idx: usize = row * base_w + col;
        let v: T = patch[p];
        let ghost before = base@;
        base.set(idx, v);
        proof {
            let gp = p as int;
            let gidx = idx as int;
            lemma_fundamental_div_mod_converse(gidx, bw, row as int, col as int);
            assert(base@ =~= patched_prefix(orig, bw, patch@, pw, ph, gox, goy, gp + 1)) by {
                assert forall|q: int| 0 <= q < orig.len() implies base@[q] == patched_prefix(
                    orig,
                    bw,
                    patch@,
                    pw,
                    ph,
                    gox,
                    goy,
                    gp + 1,
                )[q] by {
                    let x = q % bw;
                    let y = q / bw;
                    lemma_fundamental_div_mod(q, bw);
                    vstd::arithmetic::div_mod::lemma_mod_bound(q, bw);
                    vstd::arithmetic::div_mod::lemma_div_pos_is_pos(q, bw);
                    if q == gidx {
                        assert(x == col as int && y == row as int);
                        assert((y - goy) * pw + (x - gox) == gp) by {
                            assert(y - goy == j as int && x - gox == i as int);
                            assert((j as int) * pw == pw * (j as int)) by (nonlinear_arith);
                        }
                    } else {
                        if gox <= x < gox + pw && goy <= y < goy + ph {
                            let lin = (y - goy) * pw + (x - gox);
                            if lin == gp {
                                assert(lin == (y - goy) * pw + (x - gox));
                                assert(pw * (y - goy) + (x - gox) == gp) by (nonlinear_arith)
                                    requires
                                        (y - goy) * pw + (x - gox) == gp,
                                ;
                                lemma_fundamental_div_mod_converse(gp, pw, y - goy, x - gox);
                                assert(y - goy == j as int && x - gox == i as int);
                                assert(q == bw * y + x);
                                assert(bw * y == y * bw) by (nonlinear_arith);
                                assert(q == gidx);
                                assert(false);
                            }
                        }
                    }
                }
            }
        }
        p = p + 1;
    }
    proof {
        assert(base@ =~= patched_seq(orig, bw, patch@, pw, ph, gox, goy)) by {
            assert forall|q: int| 0 <= q < orig.len() implies base@[q] == patched_seq(
                orig,
                bw,
                patch@,
                pw,
                ph,
                gox,
                goy,
            )[q] by {
                let x = q % bw;
                let y = q / bw;
                if bw > 0 {
                    vstd::arithmetic::div_mod::lemma_mod_bound(q, bw);
                }
                if gox <= x < gox + pw && goy <= y < goy + ph {
                    let lin = (y - goy) * pw + (x - gox);
                    assert(lin < pw * ph) by (nonlinear_arith)
                        requires
                            0 <= y - goy < ph,
                            0 <= x - gox < pw,
                            lin == (y - goy) * pw + (x - gox),
                    ;
                }
            }
        }
    }
}

impl AllocatedTexture {
    /// Writes new pixel data over a region of the stored snapshot. The
    /// patch must share the texture's pixel layout and the region must lie
    /// inside the texture; the handles and format are untouched.
    pub fn update(&mut self, origin: RegionOrigin, patch: ImageData)
        requires
            image_wf(old(self)@.image),
            image_wf(patch@),
            image_format_of(patch@) == image_format_of(old(self)@.image),
            origin.x + image_width(patch@) <= image_width(old(self)@.image),
            origin.y + image_height(patch@) <= image_height(old(self)@.image),
        ensures
            final(self)@.texture == old(self)@.texture,
            final(self)@.resource == old(self)@.resource,
            final(self)@.format == old(self)@.format,
            final(self)@.image == patched_image(
                old(self)@.image,
                patch@,
                origin.x as int,
                origin.y as int,
            ),
    {
        let ghost old_image = self.image@;
        match (&mut self.image, patch) {
            (
                ImageData::Intensity { width, height, pixels },
                ImageData::Intensity { width: pw, height: ph, pixels: pp },
            ) => {
                patch_pixels(pixels, *width, *height, &pp, pw, ph, origin.x, origin.y);
                assert(self.image@ =~= patched_image(
                    old_image,
                    ImageData::Intensity { width: pw, height: ph, pixels: pp }@,
                    origin.x as int,
                    origin.y as int,
                ));
            },
            (
                ImageData::Color { width, height, pixels },
                ImageData::Color { width: pw, height: ph, pixels: pp },
            ) => {
                patch_pixels(pixels, *width, *height, &pp, pw, ph, origin.x, origin.y);
                assert(self.image@ =~= patched_image(
                    old_image,
                    ImageData::Color { width: pw, height: ph, pixels: pp }@,
                    origin.x as int,
                    origin.y as int,
                ));
            },
            _ => {
                proof {
                    assert(false);
                }
            },
        }
    }
}

/// The mathematical value of a stored texture map.
pub open spec fn stored_map(m: Map<u128, AllocatedTexture>) -> Map<u128, TexView> {
    Map::new(|k: u128| m.contains_key(k), |k: u128| m[k]@)
}

proof fn lemma_stored_map_remove(m: Map<u128, AllocatedTexture>, k: u128)
    ensures
        stored_map(m.remove(k)) == stored_map(m).remove(k),
{
    assert(stored_map(m.remove(k)) =~= stored_map(m).remove(k));
}

proof fn lemma_stored_map_insert(m: Map<u128, AllocatedTexture>, k: u128, v: AllocatedTexture)
    ensures
        stored_map(m.insert(k, v)) == stored_map(m).insert(k, v@),
{
    assert(stored_map(m.insert(k, v)) =~= stored_map(m).insert(k, v@));
}

/// Whether every image a delta sets holds exactly one pixel per cell of
/// its extent, as resolving the delta requires.
pub fn delta_images_wf(delta: &TexturesDelta) -> (r: bool)
    ensures
        r == delta_wf(delta_view(*delta)),
{
    let ghost dv = delta_view(*delta);
    let mut i: usize = 0;
    while i < delta.set.len()
        invariant
            dv == delta_view(*delta),
            0 <= i <= delta.set@.len(),
            forall|j: int| 0 <= j < i ==> image_wf(#[trigger] dv.set[j].image),
        decreases delta.set@.len() - i,
    {
        let wf = match &delta.set[i].1.image {
            ImageData::Intensity { width, height, pixels } => {
                let cells_held = pixels.len();
                match width.checked_mul(*height) {
                    Some(cells) => cells_held == cells,
                    None => false,
                }
            },
            ImageData::Color { width, height, pixels } => {
                let cells_held = pixels.len();
                match width.checked_mul(*height) {
                    Some(cells) => cells_held == cells,
                    None => false,
                }
            },
        };
        proof {
            assert(dv.set[i as int].image == delta.set@[i as int].1.image@);
            assert(wf == image_wf(dv.set[i as int].image));
        }
        if !wf {
            return false;
        }
        i = i + 1;
    }
    true
}

/// Owns every allocated texture, keyed by its identifier, and the handle
/// counter the fresh GPU handles are drawn from.
pub struct TextureAllocator {
    allocated: HashMap<u128, AllocatedTexture>,
    next_handle: u64,
}

impl View for TextureAllocator {
    type V = AllocView;

    closed spec fn view(&self) -> AllocView {
        AllocView { textures: stored_map(self.allocated@), next_handle: self.next_handle as int }
    }
}

/// The map key a texture identifier is stored under.
fn key_of(id: TextureId) -> (k: u128)
    ensures
        k == texture_key(id),
{
    match id {
        TextureId::Managed(n) => n as u128,
        TextureId::User(n) => USER_KEY_BASE + n as u128,
    }
}

impl TextureAllocator {
    /// An allocator with no textures and the handle counter at zero.
    pub fn new() -> (a: TextureAllocator)
        ensures
            a@.textures == Map::<u128, TexView>::empty(),
            a@.next_handle == 0,
            alloc_wf(a@),
    {
        let a = TextureAllocator { allocated: HashMap::new(), next_handle: 0 };
        proof {
            assert(a@.textures =~= Map::<u128, TexView>::empty());
        }
        a
    }

    /// The allocated textures, keyed as [`texture_key`] encodes them.
    pub fn allocated(&self) -> (m: &HashMap<u128, AllocatedTexture>)
        ensures
            stored_map(m@) == self@.textures,
    {
        &self.allocated
    }

    /// The texture stored for an identifier, if any.
    pub fn lookup(&self, id: TextureId) -> (r: Option<&AllocatedTexture>)
        ensures
            match r {
                Some(t) => self@.textures.contains_key(texture_key(id)) && t@
                    == self@.textures[texture_key(id)],
                None => !self@.textures.contains_key(texture_key(id)),
            },
    {
        let k = key_of(id);
        self.allocated.get(&k)
    }

    /// Whether the allocator can draw two fresh handles for every set
    /// entry of the delta without exhausting its counter. The counter
    /// spans a 64-bit range, so a session never comes near the limit, but
    /// resolving a delta asks for the room explicitly.
    pub fn can_absorb(&self, delta: &TexturesDelta) -> (r: bool)
        ensures
            r == (self@.next_handle + 2 * delta.set@.len() <= u64::MAX),
    {
        let len = delta.set.len();
        (self.next_handle as u128) + 2 * (len as u128) <= u64::MAX as u128
    }

    /// Applies one frame's texture delta: frees every identifier on the
    /// free list, then applies every set entry, in order. Returns the GPU
    /// operations the embedding application must perform, in order, or the
    /// first contract violation found; a violation aborts the resolution
    /// where it stands.
    pub fn resolve_delta(&mut self, delta: TexturesDelta) -> (r: Result<
        Vec<TextureAction>,
        TextureError,
    >)
        requires
            alloc_wf(old(self)@),
            delta_wf(delta_view(delta)),
            old(self)@.next_handle + 2 * delta.set@.len() <= u64::MAX,
        ensures
            alloc_wf(final(self)@),
            match delta_applied(old(self)@, delta_view(delta)) {
                Ok(va) => r matches Ok(actions) && actions@ == va.1 && final(self)@ == va.0,
                Err(e) => r == Err::<Vec<TextureAction>, TextureError>(e),
            },
    {
        let ghost init = self@;
        let ghost dv = delta_view(delta);
        let TexturesDelta { set, free } = delta;
        let mut set = set;
        let mut free = free;
        let mut actions: Vec<TextureAction> = Vec::new();

        while free.len() > 0
            invariant
                init == old(self)@,
                dv == delta_view(delta),
                alloc_wf(self@),
                self@.next_handle == init.next_handle,
                freed_all(init, dv.free).0 == freed_all(self@, free@).0,
                freed_all(init, dv.free).1 == actions@ + freed_all(self@, free@).1,
            decreases free@.len(),
        {
            let ghost pre = self@;
            let ghost pre_free = free@;
            let ghost pre_actions = actions@;
            let id = free.remove(0);
            let k = key_of(id);
            let ghost m0 = self.allocated@;
            match self.allocated.remove(&k) {
                Some(t) => {
                    actions.push(TextureAction::Free { texture: t.texture, resource: t.resource });
                },
                None => {},
            }
            proof {
                assert(free@ =~= pre_free.skip(1));
                lemma_stored_map_remove(m0, k);
                assert(self@ =~= freed_one(pre, id).0);
                assert(actions@ =~= pre_actions + freed_one(pre, id).1);
                assert(freed_all(pre, pre_free).0 == freed_all(self@, free@).0);
                assert(freed_all(pre, pre_free).1 =~= freed_one(pre, id).1 + freed_all(
                    self@,
                    free@,
                ).1);
                assert(pre_actions + freed_all(pre, pre_free).1 =~= actions@ + freed_all(
                    self@,
                    free@,
                ).1);
            }
        }
        proof {
            assert(freed_all(self@, free@).0 == self@);
            assert(actions@ + freed_all(self@, free@).1 =~= actions@);
            assert(freed_all(init, dv.free).0 == self@);
            assert(freed_all(init, dv.free).1 == actions@);
        }

        let ghost after_free = self@;
        let ghost free_actions = actions@;

        while set.len() > 0
            invariant
                init == old(self)@,
                dv == delta_view(delta),
                alloc_wf(self@),
                forall|i: int| 0 <= i < set@.len() ==> image_wf(#[trigger] set_views(set@)[i].image),
                self@.next_handle + 2 * set@.len() <= u64::MAX,
                freed_all(init, dv.free).0 == after_free,
                freed_all(init, dv.free).1 == free_actions,
                free_actions.is_prefix_of(actions@),
                match set_all(self@, set_views(set@)) {
                    Ok(va) => set_all(after_free, dv.set) == Ok::<_, TextureError>(
                        (va.0, actions@.skip(free_actions.len() as int) + va.1),
                    ),
                    Err(e) => set_all(after_free, dv.set) == Err::<
                        (AllocView, Seq<TextureAction>),
                        TextureError,
                    >(e),
                },
            decreases set@.len(),
        {
            let ghost pre = self@;
            let ghost pre_set = set@;
            let ghost pre_actions = actions@;
            let (id, entry) = set.remove(0);
            let ghost head = SetEntryView { id, image: entry.image@, pos: entry.pos };
            proof {
                assert(set_views(pre_set)[0] == head);
                assert(image_wf(head.image));
            }
            let r1 = self.set_one_exec(id, entry.image, entry.pos, &mut actions);
            proof {
                assert(set@ =~= pre_set.skip(1));
                assert(set_views(set@) =~= set_views(pre_set).skip(1));
            }
            match r1 {
                Ok(()) => {
                    proof {
                        let a1 = set_one(pre, head)->Ok_0.1;
                        assert(actions@ =~= pre_actions + a1);
                        match set_all(self@, set_views(set@)) {
                            Ok(va) => {
                                assert(set_all(pre, set_views(pre_set)) == Ok::<_, TextureError>(
                                    (va.0, a1 + va.1),
                                ));
                                assert(actions@.skip(free_actions.len() as int) + va.1
                                    =~= pre_actions.skip(free_actions.len() as int) + (a1 + va.1));
                            },
                            Err(e) => {
                                assert(set_all(pre, set_views(pre_set)) == Err::<
                                    (AllocView, Seq<TextureAction>),
                                    TextureError,
                                >(e));
                            },
                        }
                    }
                },
                Err(e) => {
                    proof {
                        assert(set_all(pre, set_views(pre_set)) == Err::<
                            (AllocView, Seq<TextureAction>),
                            TextureError,
                        >(e));
                        assert(delta_applied(init, dv) == Err::<
                            (AllocView, Seq<TextureAction>),
                            TextureError,
                        >(e));
                    }
                    return Err(e);
                },
            }
        }
        proof {
            assert(set_views(set@) =~= Seq::<SetEntryView>::empty());
            assert(set_all(self@, set_views(set@)) == Ok::<_, TextureError>(
                (self@, Seq::<TextureAction>::empty()),
            ));
            assert(actions@.skip(free_actions.len() as int) + Seq::<TextureAction>::empty()
                =~= actions@.skip(free_actions.len() as int));
            assert(free_actions + actions@.skip(free_actions.len() as int) =~= actions@);
        }
        Ok(actions)
    }

    /// Applies one set entry, appending its GPU operations; on a contract
    /// violation the allocator and the operation list are left unchanged.
    fn set_one_exec(
        &mut self,
        id: TextureId,
        image: ImageData,
        pos: Option<RegionOrigin>,
        actions: &mut Vec<TextureAction>,
    ) -> (r: Result<(), TextureError>)
        requires
            alloc_wf(old(self)@),
            image_wf(image@),
            old(self)@.next_handle + 2 <= u64::MAX,
        ensures
            alloc_wf(final(self)@),
            old(self)@.next_handle <= final(self)@.next_handle <= old(self)@.next_handle + 2,
            match set_one(old(self)@, SetEntryView { id, image: image@, pos }) {
                Ok(va) => r is Ok && final(self)@ == va.0 && final(actions)@ == old(actions)@
                    + va.1,
                Err(e) => {
                    &&& r == Err::<(), TextureError>(e)
                    &&& final(self)@ == old(self)@
                    &&& final(actions)@ == old(actions)@
                },
            },
    {
        let ghost pre = self@;
        let ghost head = SetEntryView { id, image: image@, pos };
        let k = key_of(id);
        match pos {
            Some(origin) => {
                let ghost m0 = self.allocated@;
                match self.allocated.remove(&k) {
                    None => {
                        proof {
                            lemma_stored_map_remove(m0, k);
                            assert(self@ =~= pre);
                        }
                        Err(TextureError::PartialWithoutPrior { id })
                    },
                    Some(t) => {
                        let mut t = t;
                        let fmt = get_image_format(&image);
                        let pw = image.width();
                        let ph = image.height();
                        let bw = t.image.width();
                        let bh = t.image.height();
                        if fmt != t.format {
                            let ghost m1 = self.allocated@;
                            let ghost tg = t;
                            self.allocated.insert(k, t);
                            proof {
                                lemma_stored_map_remove(m0, k);
                                lemma_stored_map_insert(m1, k, tg);
                                assert(self@.textures =~= pre.textures);
                                assert(self@ =~= pre);
                            }
                            Err(TextureError::FormatMismatch { id })
                        } else if !(origin.x <= bw && pw <= bw - origin.x && origin.y <= bh && ph
                            <= bh - origin.y) {
                            let ghost m1 = self.allocated@;
                            let ghost tg = t;
                            self.allocated.insert(k, t);
                            proof {
                                lemma_stored_map_remove(m0, k);
                                lemma_stored_map_insert(m1, k, tg);
                                assert(self@.textures =~= pre.textures);
                                assert(self@ =~= pre);
                            }
                            Err(TextureError::RegionOutOfBounds { id })
                        } else {
                            t.update(origin, image);
                            let texture = t.texture;
                            let ghost m1 = self.allocated@;
                            let ghost tg = t;
                            self.allocated.insert(k, t);
                            actions.push(TextureAction::Upload { id, texture });
                            proof {
                                lemma_stored_map_remove(m0, k);
                                lemma_stored_map_insert(m1, k, tg);
                                let want = set_one(pre, head)->Ok_0;
                                assert(self@.textures =~= want.0.textures);
                                assert(self@ =~= want.0);
                                assert(actions@ =~= old(actions)@ + want.1);
                            }
                            Ok(())
                        }
                    },
                }
            },
            None => {
                let texture = self.next_handle;
                let resource = self.next_handle + 1;
                let format = get_image_format(&image);
                let entry = AllocatedTexture { texture, resource, format, image };
                let ghost m0 = self.allocated@;
                let ghost eg = entry;
                let prior = self.allocated.insert(k, entry);
                self.next_handle = self.next_handle + 2;
                match prior {
                    Some(old_entry) => {
                        actions.push(TextureAction::Free {
                            texture: old_entry.texture,
                            resource: old_entry.resource,
                        });
                        actions.push(TextureAction::Create { id, texture, resource, format });
                    },
                    None => {
                        actions.push(TextureAction::Create { id, texture, resource, format });
                    },
                }
                proof {
                    lemma_stored_map_insert(m0, k, eg);
                    let want = set_one(pre, head)->Ok_0;
                    assert(self@.textures =~= want.0.textures);
                    assert(self@ =~= want.0);
                    assert(actions@ =~= old(actions)@ + want.1);
                }
                Ok(())
            },
        }
    }
}

} // verus!
