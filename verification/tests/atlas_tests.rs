use std::cell::Cell;
use gpui_web::assets::{hash, Resource};
use std::rc::Rc;

use gpui_web::atlas::{
    AtlasKey, AtlasTexture, AtlasTextureId, AtlasTextureKind, TextureAtlas,
};
use gpui_web::geometry::{Bounds, Size};
use gpui_web::packer::AtlasAllocator;

fn overlaps(a: &Bounds, b: &Bounds) -> bool {
    a.origin.x < b.origin.x + b.size.width
        && b.origin.x < a.origin.x + a.size.width
        && a.origin.y < b.origin.y + b.size.height
        && b.origin.y < a.origin.y + a.size.height
}

fn within(b: &Bounds, width: i32, height: i32) -> bool {
    b.origin.x >= 0
        && b.origin.y >= 0
        && b.origin.x + b.size.width <= width
        && b.origin.y + b.size.height <= height
}

#[test]
fn test_packer_reuse_without_corruption() {
    // Allocate tile A (64x64) and tile B (64x64) in an empty 1024x1024
    // texture; free A; allocate C (64x64): C must not overlap B.
    let mut packer = AtlasAllocator::new(Size::new(1024, 1024));
    let (id_a, _bounds_a) = packer.allocate(Size::new(64, 64)).unwrap();
    let (_id_b, bounds_b) = packer.allocate(Size::new(64, 64)).unwrap();
    packer.deallocate(id_a);
    let (_id_c, bounds_c) = packer.allocate(Size::new(64, 64)).unwrap();
    assert!(!overlaps(&bounds_c, &bounds_b));
    assert!(within(&bounds_c, 1024, 1024));
}

#[test]
fn test_packer_live_tiles_never_overlap() {
    let mut packer = AtlasAllocator::new(Size::new(512, 512));
    let mut live: Vec<(u32, Bounds)> = Vec::new();
    // A mixed sequence of allocations and frees.
    for round in 0..6 {
        for _ in 0..8 {
            let (id, bounds) = packer.allocate(Size::new(48, 16)).unwrap();
            assert!(within(&bounds, 512, 512));
            for (_, other) in &live {
                assert!(!overlaps(&bounds, other));
            }
            live.push((id, bounds));
        }
        // free every other live tile
        let mut keep = Vec::new();
        for (i, entry) in live.drain(..).enumerate() {
            if i % 2 == round % 2 {
                packer.deallocate(entry.0);
            } else {
                keep.push(entry);
            }
        }
        live = keep;
    }
}

#[test]
fn test_packer_full_texture_exhausts() {
    let mut packer = AtlasAllocator::new(Size::new(128, 128));
    let first = packer.allocate(Size::new(128, 128));
    assert!(first.is_some());
    let second = packer.allocate(Size::new(1, 1));
    assert!(second.is_none());
}

#[test]
fn test_get_or_insert_with_dedup() {
    // A second lookup of the same key returns the same tile without
    // invoking the builder again.
    let mut atlas = TextureAtlas::new();
    let key = AtlasKey { fingerprint: 7, kind: AtlasTextureKind::Monochrome };
    let calls = Rc::new(Cell::new(0u32));

    let c = calls.clone();
    let tile1 = atlas
        .get_or_insert_with(&key, move || {
            c.set(c.get() + 1);
            Ok::<_, ()>(Some((Size::new(64, 64), vec![0u8; 64 * 64])))
        })
        .unwrap()
        .unwrap();
    assert_eq!(calls.get(), 1);

    let c = calls.clone();
    let tile2 = atlas
        .get_or_insert_with(&key, move || {
            c.set(c.get() + 1);
            Ok::<_, ()>(Some((Size::new(64, 64), vec![0u8; 64 * 64])))
        })
        .unwrap()
        .unwrap();
    assert_eq!(calls.get(), 1);
    assert_eq!(tile1, tile2);
}

#[test]
fn test_empty_content_not_cached() {
    // A builder that reports no visible pixels yields no tile, and the
    // key stays uncached: the next lookup invokes the builder again.
    // Real content, in contrast, is cached.
    let mut atlas = TextureAtlas::new();
    let key = AtlasKey { fingerprint: 1, kind: AtlasTextureKind::Monochrome };
    let calls = Rc::new(Cell::new(0u32));

    let c = calls.clone();
    let r = atlas
        .get_or_insert_with(&key, move || {
            c.set(c.get() + 1);
            Ok::<_, ()>(None)
        })
        .unwrap();
    assert!(r.is_none());
    assert_eq!(calls.get(), 1);

    let c = calls.clone();
    let r = atlas
        .get_or_insert_with(&key, move || {
            c.set(c.get() + 1);
            Ok::<_, ()>(Some((Size::new(8, 8), vec![0u8; 64])))
        })
        .unwrap();
    assert!(r.is_some());
    assert_eq!(calls.get(), 2);

    // now cached: no further invocation
    let c = calls.clone();
    let r2 = atlas
        .get_or_insert_with(&key, move || {
            c.set(c.get() + 1);
            Ok::<_, ()>(Some((Size::new(8, 8), vec![0u8; 64])))
        })
        .unwrap();
    assert_eq!(r2, r);
    assert_eq!(calls.get(), 2);
}

#[test]
fn test_builder_error_leaves_atlas_unchanged() {
    let mut atlas = TextureAtlas::new();
    let key = AtlasKey { fingerprint: 3, kind: AtlasTextureKind::Polychrome };
    let r = atlas.get_or_insert_with(&key, || Err::<Option<(Size, Vec<u8>)>, &str>("boom"));
    assert_eq!(r, Err("boom"));
    assert!(atlas.get(&key).is_none());
}

#[test]
fn test_remove_twice_is_noop() {
    let mut atlas = TextureAtlas::new();
    let key = AtlasKey { fingerprint: 9, kind: AtlasTextureKind::Monochrome };
    let tile = atlas
        .get_or_insert_with(&key, || Ok::<_, ()>(Some((Size::new(16, 16), vec![0u8; 256]))))
        .unwrap();
    assert!(tile.is_some());
    assert!(atlas.get(&key).is_some());

    atlas.remove(&key);
    assert!(atlas.get(&key).is_none());
    // the second remove does not panic and the cache still lacks the key
    atlas.remove(&key);
    assert!(atlas.get(&key).is_none());
}

#[test]
fn test_freed_texture_slot_is_reused() {
    // Fill two whole textures, drop the first's only key, and check the
    // next texture creation takes slot 0 again instead of appending.
    let mut atlas = TextureAtlas::new();
    let kind = AtlasTextureKind::Monochrome;
    let big = Size::new(1024, 1024);

    let key0 = AtlasKey { fingerprint: 100, kind };
    let tile0 = atlas
        .get_or_insert_with(&key0, || Ok::<_, ()>(Some((big, vec![0u8; 16]))))
        .unwrap()
        .unwrap();
    assert_eq!(tile0.texture_id.index, 0);

    let key1 = AtlasKey { fingerprint: 101, kind };
    let tile1 = atlas
        .get_or_insert_with(&key1, || Ok::<_, ()>(Some((big, vec![0u8; 16]))))
        .unwrap()
        .unwrap();
    assert_eq!(tile1.texture_id.index, 1);

    // the first texture's live-reference count reaches zero: its slot is
    // freed
    atlas.remove(&key0);

    let key2 = AtlasKey { fingerprint: 102, kind };
    let tile2 = atlas
        .get_or_insert_with(&key2, || Ok::<_, ()>(Some((big, vec![0u8; 16]))))
        .unwrap()
        .unwrap();
    assert_eq!(tile2.texture_id.index, 0);
}

#[test]
fn test_kinds_are_partitioned() {
    let mut atlas = TextureAtlas::new();
    let mono = AtlasKey { fingerprint: 1, kind: AtlasTextureKind::Monochrome };
    let poly = AtlasKey { fingerprint: 2, kind: AtlasTextureKind::Polychrome };
    let t1 = atlas
        .get_or_insert_with(&mono, || Ok::<_, ()>(Some((Size::new(8, 8), vec![0u8; 64]))))
        .unwrap()
        .unwrap();
    let t2 = atlas
        .get_or_insert_with(&poly, || Ok::<_, ()>(Some((Size::new(8, 8), vec![0u8; 256]))))
        .unwrap()
        .unwrap();
    assert_eq!(t1.texture_id.kind, AtlasTextureKind::Monochrome);
    assert_eq!(t2.texture_id.kind, AtlasTextureKind::Polychrome);
    // both lists start at index 0
    assert_eq!(t1.texture_id.index, 0);
    assert_eq!(t2.texture_id.index, 0);
}

#[test]
fn test_upload_queue_drains_in_order() {
    let mut atlas = TextureAtlas::new();
    let k1 = AtlasKey { fingerprint: 11, kind: AtlasTextureKind::Monochrome };
    let k2 = AtlasKey { fingerprint: 12, kind: AtlasTextureKind::Monochrome };
    let t1 = atlas
        .get_or_insert_with(&k1, || Ok::<_, ()>(Some((Size::new(4, 4), vec![1u8; 16]))))
        .unwrap()
        .unwrap();
    let t2 = atlas
        .get_or_insert_with(&k2, || Ok::<_, ()>(Some((Size::new(4, 4), vec![2u8; 16]))))
        .unwrap()
        .unwrap();

    let uploads = atlas.before_frame();
    assert_eq!(uploads.len(), 2);
    assert_eq!(uploads[0].id, t1.texture_id);
    assert_eq!(uploads[0].bounds, t1.bounds);
    assert_eq!(uploads[0].data, vec![1u8; 16]);
    assert_eq!(uploads[1].id, t2.texture_id);
    assert_eq!(uploads[1].bounds, t2.bounds);
    assert_eq!(uploads[1].data, vec![2u8; 16]);

    // drained exactly once
    assert_eq!(atlas.before_frame().len(), 0);
}

#[test]
fn test_texture_format_and_ref_count() {
    let mono = AtlasTexture::new(
        AtlasTextureId { index: 0, kind: AtlasTextureKind::Monochrome },
        Size::new(256, 256),
    );
    assert_eq!(mono.bytes_per_pixel(), 1);
    assert!(mono.is_unreferenced());

    let mut poly = AtlasTexture::new(
        AtlasTextureId { index: 0, kind: AtlasTextureKind::Polychrome },
        Size::new(256, 256),
    );
    assert_eq!(poly.bytes_per_pixel(), 4);
    let tile = poly.allocate(Size::new(16, 16)).unwrap();
    assert_eq!(tile.bounds.size, Size::new(16, 16));
    assert!(!poly.is_unreferenced());
    poly.decrement_ref_count();
    assert!(poly.is_unreferenced());
    // saturates at zero
    poly.decrement_ref_count();
    assert!(poly.is_unreferenced());
}

#[test]
fn test_hash_exact_values() {
    assert_eq!(hash(&vec![]), 0);
    assert_eq!(hash(&vec![1]), 0x517cc1b727220a95);
    assert_eq!(hash(&vec![1, 2]), 0x6a4be67ff98fabc8);
    assert_eq!(hash(&vec![b'a', b'b', b'c']), 0x62fd7437241e1adf);
    // distinct content gives distinct fingerprints here
    assert_ne!(hash(&vec![1, 2]), hash(&vec![2, 1]));
}

#[test]
fn test_resource_variants() {
    let uri = Resource::Uri("https://example.com/icon.png".to_string());
    let path = Resource::Path("/tmp/icon.png".to_string());
    let embedded = Resource::Embedded("icons/icon.png".to_string());
    assert_ne!(uri, path);
    assert_ne!(path, embedded);
    assert_eq!(uri.clone(), uri);
}

#[test]
fn test_existing_texture_preferred_over_new() {
    // Small tiles keep landing in the texture that already has room; no
    // new texture (no new slot index) appears while the first can hold
    // them.
    let mut atlas = TextureAtlas::new();
    let kind = AtlasTextureKind::Monochrome;
    for fingerprint in 0..8u64 {
        let key = AtlasKey { fingerprint, kind };
        let tile = atlas
            .get_or_insert_with(&key, || Ok::<_, ()>(Some((Size::new(32, 32), vec![0u8; 1024]))))
            .unwrap()
            .unwrap();
        assert_eq!(tile.texture_id.index, 0);
    }
}

#[test]
fn test_same_fingerprint_different_kinds_do_not_alias() {
    // A monochrome key and a polychrome key sharing a fingerprint are
    // cached independently: each gets its own tile, and removing one
    // leaves the other cached.
    let mut atlas = TextureAtlas::new();
    let mono = AtlasKey { fingerprint: 42, kind: AtlasTextureKind::Monochrome };
    let poly = AtlasKey { fingerprint: 42, kind: AtlasTextureKind::Polychrome };
    let t1 = atlas
        .get_or_insert_with(&mono, || Ok::<_, ()>(Some((Size::new(8, 8), vec![0u8; 64]))))
        .unwrap()
        .unwrap();
    let t2 = atlas
        .get_or_insert_with(&poly, || Ok::<_, ()>(Some((Size::new(8, 8), vec![0u8; 256]))))
        .unwrap()
        .unwrap();
    assert_eq!(t1.texture_id.kind, AtlasTextureKind::Monochrome);
    assert_eq!(t2.texture_id.kind, AtlasTextureKind::Polychrome);
    assert_eq!(atlas.get(&mono), Some(t1));
    assert_eq!(atlas.get(&poly), Some(t2));

    atlas.remove(&mono);
    assert!(atlas.get(&mono).is_none());
    assert_eq!(atlas.get(&poly), Some(t2));
}
