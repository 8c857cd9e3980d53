use egui_d3d11::texture::{
    get_image_format, ImageData, ImageDelta, RegionOrigin, TextureAction, TextureAllocator,
    TextureError, TextureFormat, TextureId, TexturesDelta,
};

fn color_image(width: usize, height: usize, fill: u32) -> ImageData {
    ImageData::Color { width, height, pixels: vec![fill; width * height] }
}

fn intensity_image(width: usize, height: usize, pixels: Vec<u8>) -> ImageData {
    assert_eq!(pixels.len(), width * height);
    ImageData::Intensity { width, height, pixels }
}

fn set_full(id: TextureId, image: ImageData) -> TexturesDelta {
    TexturesDelta { set: vec![(id, ImageDelta { image, pos: None })], free: vec![] }
}

fn set_partial(id: TextureId, image: ImageData, x: usize, y: usize) -> TexturesDelta {
    TexturesDelta {
        set: vec![(id, ImageDelta { image, pos: Some(RegionOrigin { x, y }) })],
        free: vec![],
    }
}

fn free_one(id: TextureId) -> TexturesDelta {
    TexturesDelta { set: vec![], free: vec![id] }
}

#[test]
fn full_set_allocates_fresh_handles() {
    let mut alloc = TextureAllocator::new();
    let id = TextureId::User(5);
    let actions = alloc.resolve_delta(set_full(id, color_image(2, 2, 7))).unwrap();
    assert_eq!(
        actions,
        vec![TextureAction::Create {
            id,
            texture: 0,
            resource: 1,
            format: TextureFormat::Rgba8Unorm,
        }]
    );
    let stored = alloc.lookup(id).unwrap();
    assert_eq!(stored.texture, 0);
    assert_eq!(stored.resource, 1);
    assert_eq!(stored.format, TextureFormat::Rgba8Unorm);
}

#[test]
fn freed_id_is_absent_afterwards() {
    let mut alloc = TextureAllocator::new();
    let id = TextureId::User(5);
    alloc.resolve_delta(set_full(id, color_image(2, 2, 7))).unwrap();
    let actions = alloc.resolve_delta(free_one(id)).unwrap();
    assert_eq!(actions, vec![TextureAction::Free { texture: 0, resource: 1 }]);
    assert!(alloc.lookup(id).is_none());
}

#[test]
fn freeing_an_absent_id_is_a_no_op() {
    let mut alloc = TextureAllocator::new();
    let actions = alloc.resolve_delta(free_one(TextureId::User(42))).unwrap();
    assert_eq!(actions, Vec::<TextureAction>::new());
}

#[test]
fn full_replace_frees_the_old_resource() {
    let mut alloc = TextureAllocator::new();
    let id = TextureId::Managed(3);
    alloc.resolve_delta(set_full(id, color_image(2, 2, 1))).unwrap();
    let old = alloc.lookup(id).unwrap().resource;
    let actions = alloc.resolve_delta(set_full(id, color_image(4, 4, 2))).unwrap();
    assert_eq!(
        actions,
        vec![
            TextureAction::Free { texture: 0, resource: 1 },
            TextureAction::Create {
                id,
                texture: 2,
                resource: 3,
                format: TextureFormat::Rgba8Unorm,
            },
        ]
    );
    let new = alloc.lookup(id).unwrap().resource;
    assert_ne!(old, new);
}

#[test]
fn partial_update_patches_the_snapshot() {
    let mut alloc = TextureAllocator::new();
    let id = TextureId::Managed(0);
    let base: Vec<u8> = (0..16).collect();
    alloc.resolve_delta(set_full(id, intensity_image(4, 4, base))).unwrap();
    let patch = intensity_image(2, 2, vec![100, 101, 110, 111]);
    let actions = alloc.resolve_delta(set_partial(id, patch, 1, 2)).unwrap();
    assert_eq!(actions, vec![TextureAction::Upload { id, texture: 0 }]);
    let stored = alloc.lookup(id).unwrap();
    match &stored.image {
        ImageData::Intensity { width, height, pixels } => {
            assert_eq!((*width, *height), (4, 4));
            let expected: Vec<u8> = vec![
                0, 1, 2, 3, //
                4, 5, 6, 7, //
                8, 100, 101, 11, //
                12, 110, 111, 15,
            ];
            assert_eq!(pixels, &expected);
        }
        other => panic!("unexpected image {:?}", other),
    }
}

#[test]
fn partial_update_without_prior_image_fails() {
    let mut alloc = TextureAllocator::new();
    let id = TextureId::User(9);
    let r = alloc.resolve_delta(set_partial(id, intensity_image(1, 1, vec![1]), 0, 0));
    assert_eq!(r, Err(TextureError::PartialWithoutPrior { id }));
}

#[test]
fn partial_update_with_wrong_format_fails() {
    let mut alloc = TextureAllocator::new();
    let id = TextureId::User(1);
    alloc.resolve_delta(set_full(id, color_image(2, 2, 0))).unwrap();
    let r = alloc.resolve_delta(set_partial(id, intensity_image(1, 1, vec![1]), 0, 0));
    assert_eq!(r, Err(TextureError::FormatMismatch { id }));
}

#[test]
fn partial_update_outside_the_texture_fails() {
    let mut alloc = TextureAllocator::new();
    let id = TextureId::User(2);
    alloc.resolve_delta(set_full(id, color_image(4, 4, 0))).unwrap();
    let r = alloc.resolve_delta(set_partial(id, color_image(3, 3, 0), 2, 2));
    assert_eq!(r, Err(TextureError::RegionOutOfBounds { id }));
}

#[test]
fn frees_run_before_sets() {
    let mut alloc = TextureAllocator::new();
    let id = TextureId::User(4);
    alloc.resolve_delta(set_full(id, color_image(1, 1, 5))).unwrap();
    let delta = TexturesDelta {
        set: vec![(id, ImageDelta { image: color_image(1, 1, 6), pos: None })],
        free: vec![id],
    };
    let actions = alloc.resolve_delta(delta).unwrap();
    assert_eq!(
        actions,
        vec![
            TextureAction::Free { texture: 0, resource: 1 },
            TextureAction::Create {
                id,
                texture: 2,
                resource: 3,
                format: TextureFormat::Rgba8Unorm,
            },
        ]
    );
    assert!(alloc.lookup(id).is_some());
}

#[test]
fn image_formats_follow_the_pixel_layout() {
    assert_eq!(get_image_format(&intensity_image(1, 1, vec![0])), TextureFormat::R8Unorm);
    assert_eq!(get_image_format(&color_image(1, 1, 0)), TextureFormat::Rgba8Unorm);
}
