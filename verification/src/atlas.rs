//! The texture atlas: a growable, format-partitioned list of fixed-size
//! textures, a content-keyed tile cache, and a queue of pending pixel
//! uploads.
//!
//! Tiles are allocated by trying existing textures newest-first; when none
//! has room a new texture is created, reusing a freed slot index when one is
//! available. A texture's live-reference count tracks the cached keys that
//! point into it; when the count returns to zero the texture is dropped and
//! its slot index goes on the free list.

use vstd::prelude::*;
use crate::geometry::{Bounds, Size};
use crate::packer::{AtlasAllocator, Region, bounds_in_region};
use std::collections::HashMap;

verus! {

broadcast use vstd::std_specs::hash::group_hash_axioms;

/// The pixel format family of an atlas texture.
#[derive(Clone, Copy, Debug, PartialEq, Eq, Hash, Structural)]
pub enum AtlasTextureKind {
    /// Single-channel content: glyph coverage masks.
    Monochrome,
    /// Four-channel content: color images.
    Polychrome,
}

/// The concrete texel format backing a texture of a given kind.
#[derive(Clone, Copy, Debug, PartialEq, Eq, Structural)]
pub enum TextureFormat {
    /// One 8-bit channel.
    R8Unorm,
    /// Four 8-bit channels, BGRA order.
    Bgra8Unorm,
}

/// Identifies one physical texture within one of the two kind-partitioned
/// texture lists.
#[derive(Clone, Copy, Debug, PartialEq, Eq, Hash, Structural)]
pub struct AtlasTextureId {
    pub index: u32,
    pub kind: AtlasTextureKind,
}

/// Identifies one allocation within a texture's packer.
#[derive(Clone, Copy, Debug, PartialEq, Eq, Hash, Structural)]
pub struct TileId(pub u32);

/// A content fingerprint identifying one cacheable rasterization, together
/// with the texture kind its pixels need. Distinct renderable content of
/// one kind must carry distinct fingerprints; keys of different kinds
/// never collide in the cache, whatever their fingerprints.
#[derive(Clone, Copy, Debug, PartialEq, Eq, Hash, Structural)]
pub struct AtlasKey {
    pub fingerprint: u64,
    pub kind: AtlasTextureKind,
}

impl AtlasKey {
    pub fn texture_kind(&self) -> (r: AtlasTextureKind)
        ensures
            r == self.kind,
    {
        self.kind
    }
}

/// The cache code of a key: the fingerprint in the low 64 bits and the
/// kind in bit 64, so that keys of different kinds never collide in the
/// tile cache even when their fingerprints agree.
pub open spec fn spec_key_code(key: AtlasKey) -> u128 {
    (key.fingerprint as u128) | (match key.kind {
        AtlasTextureKind::Monochrome => 0u128,
        AtlasTextureKind::Polychrome => 0x1_0000_0000_0000_0000u128,
    })
}

fn key_code(key: &AtlasKey) -> (r: u128)
    ensures
        r == spec_key_code(*key),
{
    (key.fingerprint as u128) | (match key.kind {
        AtlasTextureKind::Monochrome => 0u128,
        AtlasTextureKind::Polychrome => 0x1_0000_0000_0000_0000u128,
    })
}

/// Where within which texture a key's pixels live. A cheap descriptor,
/// returned by value; the pixel data itself lives in the texture.
#[derive(Clone, Copy, Debug, PartialEq, Eq, Structural)]
pub struct AtlasTile {
    pub texture_id: AtlasTextureId,
    pub tile_id: TileId,
    pub padding: u32,
    pub bounds: Bounds,
}

/// Pixel bytes waiting to be written into an atlas region, buffered since
/// the last frame and drained exactly once per frame.
#[derive(Clone, Debug, PartialEq)]
pub struct PendingUpload {
    pub id: AtlasTextureId,
    pub bounds: Bounds,
    pub data: Vec<u8>,
}

/// A tile size the packer can hold: positive, below the packer's 16-bit
/// coordinate limit, with the height low enough that rounding shelf
/// heights up to a multiple of 64 stays within that limit, and small
/// enough that the texture created for it (grown to the default extent)
/// has an area within `i32`, as the packer's occupancy counter demands.
pub open spec fn valid_tile_size(size: Size) -> bool {
    &&& 1 <= size.width < 65535
    &&& 1 <= size.height <= 65472
    &&& spec_grown_texture_size(size).spec_area() <= 0x7FFF_FFFF
}

/// The format a texture of the given kind is created with.
pub open spec fn kind_format(kind: AtlasTextureKind) -> TextureFormat {
    match kind {
        AtlasTextureKind::Monochrome => TextureFormat::R8Unorm,
        AtlasTextureKind::Polychrome => TextureFormat::Bgra8Unorm,
    }
}

/// Bytes per texel of a format.
pub open spec fn spec_bytes_per_pixel(format: TextureFormat) -> u8 {
    match format {
        TextureFormat::R8Unorm => 1,
        TextureFormat::Bgra8Unorm => 4,
    }
}

/// The ghost abstraction of one atlas texture: identity, extent, format,
/// live-reference count, and the regions of its live allocations.
pub ghost struct TexModel {
    pub id: AtlasTextureId,
    pub size: Size,
    pub format: TextureFormat,
    pub live: u32,
    pub regions: Map<u32, Region>,
}

/// One texture of the atlas: its packer and its live-reference count.
/// The GPU resource itself lives outside the library and is addressed by
/// the texture's id.
pub struct AtlasTexture {
    id: AtlasTextureId,
    allocator: AtlasAllocator,
    format: TextureFormat,
    live_atlas_keys: u32,
}

impl AtlasTexture {
    pub closed spec fn model(self) -> TexModel {
        TexModel {
            id: self.id,
            size: self.allocator.spec_size(),
            format: self.format,
            live: self.live_atlas_keys,
            regions: self.allocator.regions(),
        }
    }

    /// True until the first allocation.
    pub closed spec fn is_fresh(self) -> bool {
        self.allocator.is_fresh()
    }

    /// Whether this texture's packer could take a tile of this size in
    /// its current state.
    pub closed spec fn has_room(self, size: Size) -> bool {
        self.allocator.has_room(size)
    }

    /// Invariant: the packer is well-formed and the live-reference count
    /// never exceeds the number of live allocations ever made (regions are
    /// only dropped with the whole texture, so the count stays in range).
    pub closed spec fn wf(self) -> bool {
        &&& self.allocator.wf()
        &&& self.live_atlas_keys as int <= self.allocator.regions().len() as int
        &&& self.format == kind_format(self.id.kind)
    }

    pub fn new(id: AtlasTextureId, size: Size) -> (r: AtlasTexture)
        requires
            valid_tile_size(size),
        ensures
            r.wf(),
            r.model().id == id,
            r.model().size == size,
            r.model().format == kind_format(id.kind),
            r.model().live == 0,
            r.model().regions =~= Map::empty(),
            r.is_fresh(),
    {
        let format = match id.kind {
            AtlasTextureKind::Monochrome => TextureFormat::R8Unorm,
            AtlasTextureKind::Polychrome => TextureFormat::Bgra8Unorm,
        };
        proof {
            let g = spec_grown_texture_size(size);
            assert(size.width * size.height <= g.width * g.height) by (nonlinear_arith)
                requires
                    1 <= size.width <= g.width,
                    1 <= size.height <= g.height,
            ;
        }
        AtlasTexture { id, allocator: AtlasAllocator::new(size), format, live_atlas_keys: 0 }
    }

    /// Allocate a tile. On success the tile's bounds have exactly the
    /// requested size, lie inside this texture within a fresh region
    /// disjoint from every other live region, and the live-reference count
    /// goes up by one. A freshly created texture that fits the request
    /// never fails.
    pub fn allocate(&mut self, size: Size) -> (r: Option<AtlasTile>)
        requires
            old(self).wf(),
            valid_tile_size(size),
        ensures
            final(self).wf(),
            final(self).model().id == old(self).model().id,
            final(self).model().size == old(self).model().size,
            final(self).model().format == old(self).model().format,
            (r is Some) <==> old(self).has_room(size),
            r is None ==> *final(self) == *old(self),
            match r {
                None => final(self).model() == old(self).model(),
                Some(tile) => {
                    &&& tile.texture_id == old(self).model().id
                    &&& tile.padding == 0
                    &&& tile.bounds.size == size
                    &&& tile.bounds.wf()
                    &&& 0 <= tile.bounds.left()
                    &&& 0 <= tile.bounds.top()
                    &&& tile.bounds.right() <= old(self).model().size.width
                    &&& tile.bounds.bottom() <= old(self).model().size.height
                    &&& !old(self).model().regions.contains_key(tile.tile_id.0)
                    &&& final(self).model().regions.contains_key(tile.tile_id.0)
                    &&& final(self).model().regions.remove(tile.tile_id.0) == old(self).model().regions
                    &&& bounds_in_region(
                        tile.bounds,
                        final(self).model().regions[tile.tile_id.0],
                    )
                    &&& final(self).model().live == old(self).model().live + 1
                },
            },
            (old(self).is_fresh() && size.width <= old(self).model().size.width && size.height
                <= old(self).model().size.height) ==> r is Some,
    {
        match self.allocator.allocate(size) {
            Some((id, bounds)) => {
                self.live_atlas_keys = self.live_atlas_keys + 1;
                Some(
                    AtlasTile {
                        texture_id: self.id,
                        tile_id: TileId(id),
                        padding: 0,
                        bounds,
                    },
                )
            },
            None => None,
        }
    }

    pub fn size(&self) -> (r: Size)
        ensures
            r == self.model().size,
    {
        self.allocator.size()
    }

    pub fn format(&self) -> (r: TextureFormat)
        ensures
            r == self.model().format,
    {
        self.format
    }

    pub fn bytes_per_pixel(&self) -> (r: u8)
        ensures
            r == spec_bytes_per_pixel(self.model().format),
    {
        match self.format {
            TextureFormat::R8Unorm => 1,
            TextureFormat::Bgra8Unorm => 4,
        }
    }

    /// One cached key referencing this texture went away.
    pub fn decrement_ref_count(&mut self)
        requires
            old(self).wf(),
        ensures
            final(self).wf(),
            final(self).model() == (TexModel {
                live: if old(self).model().live > 0 {
                    (old(self).model().live - 1) as u32
                } else {
                    0
                },
                ..old(self).model()
            }),
    {
        self.live_atlas_keys = if self.live_atlas_keys > 0 {
            self.live_atlas_keys - 1
        } else {
            0
        };
    }

    /// True when no cached key references this texture any more, making it
    /// eligible for reclamation.
    pub fn is_unreferenced(&self) -> (r: bool)
        ensures
            r == (self.model().live == 0),
    {
        self.live_atlas_keys == 0
    }
}

/// What `AtlasTexture::allocate` does to one texture's model when it
/// succeeds: a fresh region appears, the tile points at it, and the
/// live-reference count goes up by one.
pub open spec fn allocated_in_slot(
    before: Option<TexModel>,
    after: Option<TexModel>,
    tile: AtlasTile,
    size: Size,
) -> bool {
    match (before, after) {
        (Some(o), Some(n)) => {
            &&& n.id == o.id
            &&& n.size == o.size
            &&& n.format == o.format
            &&& tile.texture_id == o.id
            &&& tile.padding == 0
            &&& tile.bounds.size == size
            &&& tile.bounds.wf()
            &&& 0 <= tile.bounds.left()
            &&& 0 <= tile.bounds.top()
            &&& tile.bounds.right() <= o.size.width
            &&& tile.bounds.bottom() <= o.size.height
            &&& !o.regions.contains_key(tile.tile_id.0)
            &&& n.regions.contains_key(tile.tile_id.0)
            &&& n.regions.remove(tile.tile_id.0) == o.regions
            &&& bounds_in_region(tile.bounds, n.regions[tile.tile_id.0])
            &&& n.live == o.live + 1
        },
        _ => false,
    }
}

/// The extent a newly created texture gets for a requested tile size: at
/// least the default 1024 on each side, grown to fit the request.
pub open spec fn spec_grown_texture_size(size: Size) -> Size {
    Size {
        width: if size.width >= 1024 {
            size.width
        } else {
            1024
        },
        height: if size.height >= 1024 {
            size.height
        } else {
            1024
        },
    }
}

/// The model of a texture freshly created for `tile`, holding exactly that
/// tile's region.
pub open spec fn fresh_texture_model(
    m: TexModel,
    tile: AtlasTile,
    size: Size,
    kind: AtlasTextureKind,
) -> bool {
    &&& m.id == tile.texture_id
    &&& m.id.kind == kind
    &&& m.size == spec_grown_texture_size(size)
    &&& m.format == kind_format(kind)
    &&& m.live == 1
    &&& m.regions.contains_key(tile.tile_id.0)
    &&& m.regions.remove(tile.tile_id.0) =~= Map::empty()
    &&& allocated_in_slot(
        Some(TexModel { id: m.id, size: m.size, format: m.format, live: 0, regions: Map::empty() }),
        Some(m),
        tile,
        size,
    )
}

/// The tile names a live allocation of a live texture of the list.
pub open spec fn tile_live_in(models: Seq<Option<TexModel>>, tile: AtlasTile) -> bool {
    &&& 0 <= tile.texture_id.index < models.len()
    &&& match models[tile.texture_id.index as int] {
        Some(m) => {
            &&& m.id == tile.texture_id
            &&& m.regions.contains_key(tile.tile_id.0)
            &&& bounds_in_region(tile.bounds, m.regions[tile.tile_id.0])
        },
        None => false,
    }
}

/// Allocation found room in an existing texture: one slot's model changed
/// as `allocated_in_slot` says, everything else stayed.
pub open spec fn list_allocated_existing(
    oldm: Seq<Option<TexModel>>,
    newm: Seq<Option<TexModel>>,
    oldf: Seq<usize>,
    newf: Seq<usize>,
    tile: AtlasTile,
    size: Size,
) -> bool {
    &&& newf == oldf
    &&& newm.len() == oldm.len()
    &&& exists|i: int|
        0 <= i < oldm.len() && #[trigger] allocated_in_slot(oldm[i], newm[i], tile, size) && newm
            == oldm.update(i, newm[i]) && tile.texture_id.index == i
}

/// Allocation created a new texture: its slot index is the most recently
/// freed one when the free list is non-empty, else the next fresh index.
pub open spec fn list_allocated_fresh(
    oldm: Seq<Option<TexModel>>,
    newm: Seq<Option<TexModel>>,
    oldf: Seq<usize>,
    newf: Seq<usize>,
    tile: AtlasTile,
    size: Size,
    kind: AtlasTextureKind,
) -> bool {
    let idx = if oldf.len() > 0 {
        oldf.last() as int
    } else {
        oldm.len() as int
    };
    &&& tile.texture_id.index == idx
    &&& if oldf.len() > 0 {
        &&& newf == oldf.drop_last()
        &&& newm.len() == oldm.len()
        &&& oldm[idx] is None
        &&& newm == oldm.update(idx, newm[idx])
    } else {
        &&& newf == oldf
        &&& newm == oldm.push(newm[idx])
    }
    &&& match newm[idx] {
        Some(m) => fresh_texture_model(m, tile, size, kind),
        None => false,
    }
}

/// What `remove` does to the lists of the removed tile's kind.
pub open spec fn list_released(
    oldm: Seq<Option<TexModel>>,
    newm: Seq<Option<TexModel>>,
    oldf: Seq<usize>,
    newf: Seq<usize>,
    index: u32,
) -> bool {
    let i = index as int;
    if 0 <= i < oldm.len() {
        match oldm[i] {
            Some(t) => {
                if t.live <= 1 {
                    &&& newm == oldm.update(i, None)
                    &&& newf == oldf.push(index as usize)
                } else {
                    &&& newm == oldm.update(
                        i,
                        Some(TexModel { live: (t.live - 1) as u32, ..t }),
                    )
                    &&& newf == oldf
                }
            },
            None => newm == oldm && newf == oldf,
        }
    } else {
        newm == oldm && newf == oldf
    }
}

/// One kind's partition of the atlas: indexed texture slots plus the free
/// list of tombstoned indexes awaiting reuse.
struct AtlasTextureList {
    textures: Vec<Option<AtlasTexture>>,
    free_list: Vec<usize>,
}

spec fn slot_model(slot: Option<AtlasTexture>) -> Option<TexModel> {
    match slot {
        Some(t) => Some(t.model()),
        None => None,
    }
}

/// A vacant slot, or a live texture whose packer has no room for the
/// request.
pub open spec fn slot_no_room(slot: Option<AtlasTexture>, size: Size) -> bool {
    match slot {
        Some(t) => !t.has_room(size),
        None => true,
    }
}

spec fn slot_ok(slot: Option<AtlasTexture>, i: int, kind: AtlasTextureKind) -> bool {
    match slot {
        Some(t) => {
            &&& t.wf()
            &&& t.model().id.index == i
            &&& t.model().id.kind == kind
        },
        None => true,
    }
}

impl AtlasTextureList {
    spec fn models(self) -> Seq<Option<TexModel>> {
        self.textures@.map_values(|slot: Option<AtlasTexture>| slot_model(slot))
    }

    spec fn free(self) -> Seq<usize> {
        self.free_list@
    }

    spec fn wf(self, kind: AtlasTextureKind) -> bool {
        &&& self.textures@.len() < 0x1_0000_0000
        &&& (forall|i: int|
            0 <= i < self.textures@.len() ==> slot_ok(#[trigger] self.textures@[i], i, kind))
        &&& (forall|j: int|
            0 <= j < self.free_list@.len() ==> (#[trigger] self.free_list@[j] as int)
                < self.textures@.len() && self.textures@[self.free_list@[j] as int] is None)
        &&& (forall|j1: int, j2: int|
            0 <= j1 < j2 < self.free_list@.len() ==> self.free_list@[j1] != self.free_list@[j2])
    }

    fn new() -> (r: AtlasTextureList)
        ensures
            forall|kind: AtlasTextureKind| #[trigger] r.wf(kind),
            r.models().len() == 0,
            r.free().len() == 0,
    {
        let r = AtlasTextureList { textures: Vec::new(), free_list: Vec::new() };
        proof {
            assert(r.models() =~= Seq::empty());
        }
        r
    }

    /// Try the existing textures, most recently created first. On success
    /// every more recently created texture had no room; on failure none of
    /// them had, and the list is untouched.
    fn try_allocate(&mut self, size: Size, kind: AtlasTextureKind) -> (r: Option<AtlasTile>)
        requires
            old(self).wf(kind),
            valid_tile_size(size),
        ensures
            final(self).wf(kind),
            final(self).free() == old(self).free(),
            final(self).models().len() == old(self).models().len(),
            match r {
                None => {
                    &&& final(self).models() == old(self).models()
                    &&& forall|j: int|
                        0 <= j < old(self).textures@.len() ==> slot_no_room(
                            #[trigger] old(self).textures@[j],
                            size,
                        )
                },
                Some(tile) => {
                    &&& list_allocated_existing(
                        old(self).models(),
                        final(self).models(),
                        old(self).free(),
                        final(self).free(),
                        tile,
                        size,
                    )
                    &&& forall|j: int|
                        tile.texture_id.index < j < old(self).textures@.len() ==> slot_no_room(
                            #[trigger] old(self).textures@[j],
                            size,
                        )
                },
            },
    {
        let mut i = self.textures.len();
        while i > 0
            invariant
                i <= self.textures@.len(),
                self.wf(kind),
                valid_tile_size(size),
                self.textures@ == old(self).textures@,
                self.free_list@ == old(self).free_list@,
                forall|j: int|
                    i <= j < old(self).textures@.len() ==> slot_no_room(
                        #[trigger] old(self).textures@[j],
                        size,
                    ),
            decreases i,
        {
            i = i - 1;
            let ghost pre = self.textures@;
            match &mut self.textures[i] {
                Some(texture) => {
                    let result = texture.allocate(size);
                    match result {
                        Some(tile) => {
                            proof {
                                assert(self.models() =~= pre.map_values(
                                    |slot: Option<AtlasTexture>| slot_model(slot),
                                ).update(i as int, self.models()[i as int]));
                                assert(allocated_in_slot(
                                    old(self).models()[i as int],
                                    self.models()[i as int],
                                    tile,
                                    size,
                                ));
                            }
                            return Some(tile);
                        },
                        None => {
                            proof {
                                assert(self.textures@ =~= pre);
                                assert(slot_no_room(old(self).textures@[i as int], size));
                            }
                        },
                    }
                },
                None => {},
            }
        }
        None
    }

    /// Create a texture sized to hold the request (at least the 1024 by
    /// 1024 default), reusing the most recently freed slot index when one
    /// exists, and allocate the tile from it; a fresh texture that fits the
    /// request cannot fail.
    fn allocate_new(&mut self, size: Size, kind: AtlasTextureKind) -> (r: AtlasTile)
        requires
            old(self).wf(kind),
            valid_tile_size(size),
            old(self).models().len() + 1 < 0x1_0000_0000,
        ensures
            final(self).wf(kind),
            list_allocated_fresh(
                old(self).models(),
                final(self).models(),
                old(self).free(),
                final(self).free(),
                r,
                size,
                kind,
            ),
    {
        let texture_size = Size {
            width: if size.width >= 1024 {
                size.width
            } else {
                1024
            },
            height: if size.height >= 1024 {
                size.height
            } else {
                1024
            },
        };
        let index_opt = self.free_list.pop();
        let index: usize = match index_opt {
            Some(ix) => ix,
            None => self.textures.len(),
        };
        let id = AtlasTextureId { index: index as u32, kind };
        let mut texture = AtlasTexture::new(id, texture_size);
        let tile_opt = texture.allocate(size);
        // a fresh texture always fits its own request
        let tile = tile_opt.unwrap();
        let ghost pre = self.textures@;
        match index_opt {
            Some(_) => {
                self.textures.set(index, Some(texture));
                proof {
                    assert(self.models() =~= pre.map_values(
                        |slot: Option<AtlasTexture>| slot_model(slot),
                    ).update(index as int, self.models()[index as int]));
                }
            },
            None => {
                self.textures.push(Some(texture));
                proof {
                    assert(self.models() =~= pre.map_values(
                        |slot: Option<AtlasTexture>| slot_model(slot),
                    ).push(self.models()[index as int]));
                }
            },
        }
        tile
    }

    /// Drop one reference to the texture at `index`; when the count reaches
    /// zero, tombstone the slot and put the index on the free list. An
    /// index that no longer names a live texture is a no-op.
    fn release(&mut self, index: u32, kind: AtlasTextureKind)
        requires
            old(self).wf(kind),
        ensures
            final(self).wf(kind),
            list_released(
                old(self).models(),
                final(self).models(),
                old(self).free(),
                final(self).free(),
                index,
            ),
    {
        let ix = index as usize;
        if ix >= self.textures.len() {
            return ;
        }
        let mut freed = false;
        let ghost pre = self.textures@;
        match &mut self.textures[ix] {
            Some(texture) => {
                texture.decrement_ref_count();
                if texture.is_unreferenced() {
                    freed = true;
                }
            },
            None => {},
        }
        proof {
            if pre[ix as int] is None {
                assert(self.textures@ =~= pre);
                assert(self.models() =~= old(self).models());
            } else {
                assert(self.models() =~= old(self).models().update(
                    ix as int,
                    self.models()[ix as int],
                ));
            }
        }
        if freed {
            proof {
                assert(pre[ix as int] is Some);
                assert forall|j: int|
                    0 <= j < old(self).free_list@.len() implies old(self).free_list@[j]
                    != ix by {
                    assert(old(self).textures@[old(self).free_list@[j] as int] is None);
                }
            }
            self.free_list.push(ix);
            self.textures.set(ix, None);
            proof {
                assert(self.models() =~= old(self).models().update(ix as int, None));
            }
        }
    }
}

/// The texture atlas: the format-partitioned texture lists, the key-to-tile
/// cache, and the queue of pending uploads. The single entry and exit point
/// for tile lifetime.
pub struct TextureAtlas {
    monochrome_textures: AtlasTextureList,
    polychrome_textures: AtlasTextureList,
    tiles_by_key: HashMap<u128, AtlasTile>,
    uploads: Vec<PendingUpload>,
}

impl TextureAtlas {
    /// The texture models of one kind's list, by slot index.
    pub closed spec fn models(self, kind: AtlasTextureKind) -> Seq<Option<TexModel>> {
        match kind {
            AtlasTextureKind::Monochrome => self.monochrome_textures.models(),
            AtlasTextureKind::Polychrome => self.polychrome_textures.models(),
        }
    }

    /// The texture slots of one kind's list, by index, as the textures
    /// themselves — what the allocation-policy clauses quantify over.
    pub closed spec fn slots(self, kind: AtlasTextureKind) -> Seq<Option<AtlasTexture>> {
        match kind {
            AtlasTextureKind::Monochrome => self.monochrome_textures.textures@,
            AtlasTextureKind::Polychrome => self.polychrome_textures.textures@,
        }
    }

    /// The freed slot indexes of one kind's list, oldest first.
    pub closed spec fn free_slots(self, kind: AtlasTextureKind) -> Seq<usize> {
        match kind {
            AtlasTextureKind::Monochrome => self.monochrome_textures.free(),
            AtlasTextureKind::Polychrome => self.polychrome_textures.free(),
        }
    }

    /// The cache: key code (fingerprint plus kind bit) to tile.
    pub closed spec fn tiles(self) -> Map<u128, AtlasTile> {
        self.tiles_by_key@
    }

    /// The pixel uploads buffered since the last frame, in submission order.
    pub closed spec fn pending(self) -> Seq<PendingUpload> {
        self.uploads@
    }

    pub closed spec fn wf(self) -> bool {
        &&& self.monochrome_textures.wf(AtlasTextureKind::Monochrome)
        &&& self.polychrome_textures.wf(AtlasTextureKind::Polychrome)
    }

    pub fn new() -> (r: TextureAtlas)
        ensures
            r.wf(),
            r.tiles() == Map::<u128, AtlasTile>::empty(),
            r.pending().len() == 0,
            r.models(AtlasTextureKind::Monochrome).len() == 0,
            r.models(AtlasTextureKind::Polychrome).len() == 0,
            r.free_slots(AtlasTextureKind::Monochrome).len() == 0,
            r.free_slots(AtlasTextureKind::Polychrome).len() == 0,
    {
        TextureAtlas {
            monochrome_textures: AtlasTextureList::new(),
            polychrome_textures: AtlasTextureList::new(),
            tiles_by_key: HashMap::new(),
            uploads: Vec::new(),
        }
    }

    /// Allocate a tile, trying the existing textures of the kind newest
    /// first, and creating a new texture (reusing a freed slot index when
    /// one exists) only when none has room: a fresh texture implies no
    /// existing texture had room, and a tile from an existing texture
    /// comes from the highest-indexed one with room — the more recently
    /// created ones above it had none, letting older textures cool toward
    /// evictability.
    pub fn allocate(&mut self, size: Size, kind: AtlasTextureKind) -> (r: AtlasTile)
        requires
            old(self).wf(),
            valid_tile_size(size),
            old(self).models(kind).len() + 1 < 0x1_0000_0000,
        ensures
            final(self).wf(),
            final(self).tiles() == old(self).tiles(),
            final(self).pending() == old(self).pending(),
            forall|k: AtlasTextureKind|
                k != kind ==> #[trigger] final(self).models(k) == old(self).models(k) && final(self).free_slots(k) == old(self).free_slots(k),
            r.texture_id.kind == kind,
            r.bounds.size == size,
            r.bounds.wf(),
            r.padding == 0,
            tile_live_in(final(self).models(kind), r),
            list_allocated_existing(
                old(self).models(kind),
                final(self).models(kind),
                old(self).free_slots(kind),
                final(self).free_slots(kind),
                r,
                size,
            ) || list_allocated_fresh(
                old(self).models(kind),
                final(self).models(kind),
                old(self).free_slots(kind),
                final(self).free_slots(kind),
                r,
                size,
                kind,
            ),
            list_allocated_fresh(
                old(self).models(kind),
                final(self).models(kind),
                old(self).free_slots(kind),
                final(self).free_slots(kind),
                r,
                size,
                kind,
            ) ==> (forall|j: int|
                0 <= j < old(self).slots(kind).len() ==> slot_no_room(
                    #[trigger] old(self).slots(kind)[j],
                    size,
                )),
            forall|j: int|
                r.texture_id.index < j < old(self).slots(kind).len() ==> slot_no_room(
                    #[trigger] old(self).slots(kind)[j],
                    size,
                ),
    {
        let existing = match kind {
            AtlasTextureKind::Monochrome => self.monochrome_textures.try_allocate(size, kind),
            AtlasTextureKind::Polychrome => self.polychrome_textures.try_allocate(size, kind),
        };
        match existing {
            Some(tile) => {
                proof {
                    lemma_allocated_tile_live(
                        old(self).models(kind),
                        self.models(kind),
                        old(self).free_slots(kind),
                        self.free_slots(kind),
                        tile,
                        size,
                    );
                }
                tile
            },
            None => {
                let tile = match kind {
                    AtlasTextureKind::Monochrome => self.monochrome_textures.allocate_new(
                        size,
                        kind,
                    ),
                    AtlasTextureKind::Polychrome => self.polychrome_textures.allocate_new(
                        size,
                        kind,
                    ),
                };
                tile
            },
        }
    }

    /// Look the key up without any side effect.
    pub fn get(&self, key: &AtlasKey) -> (r: Option<AtlasTile>)
        ensures
            match r {
                Some(tile) => self.tiles().contains_key(spec_key_code(*key)) && tile
                    == self.tiles()[spec_key_code(*key)],
                None => !self.tiles().contains_key(spec_key_code(*key)),
            },
    {
        match self.tiles_by_key.get(&key_code(key)) {
            Some(tile) => Some(*tile),
            None => None,
        }
    }

    /// Exactly-once rasterization per cached key. On a cache hit the stored
    /// tile is returned with no state change at all — in particular the
    /// builder is not invoked. On a miss the builder runs once and the
    /// result mirrors what it produced: its error is passed through and an
    /// empty result (no visible pixels) comes back as no tile, both leaving
    /// the atlas unchanged, so empty content is asked for again next time;
    /// real content is allocated, its bytes are queued for upload, and the
    /// tile is cached.
    pub fn get_or_insert_with<E, F: FnOnce() -> Result<Option<(Size, Vec<u8>)>, E>>(
        &mut self,
        key: &AtlasKey,
        build: F,
    ) -> (r: Result<Option<AtlasTile>, E>)
        requires
            old(self).wf(),
            old(self).models(key.kind).len() + 1 < 0x1_0000_0000,
            call_requires(build, ()),
            forall|res: Result<Option<(Size, Vec<u8>)>, E>| #[trigger]
                call_ensures(build, (), res) ==> (match res {
                    Ok(Some(p)) => valid_tile_size(p.0),
                    _ => true,
                }),
        ensures
            final(self).wf(),
            old(self).tiles().contains_key(spec_key_code(*key)) ==> r == Ok::<_, E>(
                Some(old(self).tiles()[spec_key_code(*key)]),
            ) && *final(self) == *old(self),
            !old(self).tiles().contains_key(spec_key_code(*key)) ==> (exists|
                res: Result<Option<(Size, Vec<u8>)>, E>,
            |
                #[trigger] call_ensures(build, (), res) && (match (res, r) {
                    (Err(e), Err(e2)) => e2 == e && *final(self) == *old(self),
                    (Ok(None), Ok(None)) => *final(self) == *old(self),
                    (Ok(Some(p)), Ok(Some(tile))) => {
                        &&& tile.bounds.size == p.0
                        &&& final(self).tiles() == old(self).tiles().insert(
                            spec_key_code(*key),
                            tile,
                        )
                        &&& tile.texture_id.kind == key.kind
                        &&& tile.padding == 0
                        &&& tile.bounds.wf()
                        &&& tile_live_in(final(self).models(key.kind), tile)
                        &&& final(self).pending() == old(self).pending().push(
                            (PendingUpload { id: tile.texture_id, bounds: tile.bounds, data: p.1 }),
                        )
                    },
                    _ => false,
                })),
    {
        let cached = self.get(key);
        match cached {
            Some(tile) => {
                return Ok(Some(tile));
            },
            None => {},
        }
        let built = build();
        let ghost built_result = built;
        let pair = match built {
            Ok(Some(p)) => p,
            Ok(None) => {
                proof {
                    assert(call_ensures(build, (), built_result));
                }
                return Ok(None);
            },
            Err(e) => {
                proof {
                    assert(call_ensures(build, (), built_result));
                }
                return Err(e);
            },
        };
        let (size, bytes) = pair;
        let tile = self.allocate(size, key.texture_kind());
        self.uploads.push(PendingUpload { id: tile.texture_id, bounds: tile.bounds, data: bytes });
        self.tiles_by_key.insert(key_code(key), tile);
        proof {
            assert(call_ensures(build, (), built_result));
        }
        Ok(Some(tile))
    }

    /// Evict a key. The tile leaves the cache and its texture loses one
    /// reference; a texture whose count reaches zero is tombstoned and its
    /// slot index goes on the free list. Removing a key that is not cached
    /// (for instance, removing twice) changes nothing and never fails.
    pub fn remove(&mut self, key: &AtlasKey)
        requires
            old(self).wf(),
        ensures
            final(self).wf(),
            final(self).tiles() == old(self).tiles().remove(spec_key_code(*key)),
            final(self).pending() == old(self).pending(),
            !old(self).tiles().contains_key(spec_key_code(*key)) ==> forall|k: AtlasTextureKind|
                #[trigger] final(self).models(k) == old(self).models(k) && final(self).free_slots(k)
                    == old(self).free_slots(k),
            old(self).tiles().contains_key(spec_key_code(*key)) ==> ({
                let id = old(self).tiles()[spec_key_code(*key)].texture_id;
                &&& list_released(
                    old(self).models(id.kind),
                    final(self).models(id.kind),
                    old(self).free_slots(id.kind),
                    final(self).free_slots(id.kind),
                    id.index,
                )
                &&& forall|k: AtlasTextureKind|
                    k != id.kind ==> #[trigger] final(self).models(k) == old(self).models(k)
                        && final(self).free_slots(k) == old(self).free_slots(k)
            }),
    {
        let removed = self.tiles_by_key.remove(&key_code(key));
        let tile = match removed {
            Some(tile) => tile,
            None => {
                return ;
            },
        };
        let id = tile.texture_id;
        match id.kind {
            AtlasTextureKind::Monochrome => self.monochrome_textures.release(id.index, id.kind),
            AtlasTextureKind::Polychrome => self.polychrome_textures.release(id.index, id.kind),
        }
    }

    /// The extent and texel format of a texture, if the id names a live
    /// one. This is what the GPU shell needs to create the backing
    /// resource.
    pub fn get_texture_info(&self, id: AtlasTextureId) -> (r: Option<(Size, TextureFormat)>)
        ensures
            match r {
                Some(info) => 0 <= id.index < self.models(id.kind).len() && match self.models(
                    id.kind,
                )[id.index as int] {
                    Some(m) => info.0 == m.size && info.1 == m.format,
                    None => false,
                },
                None => id.index as int >= self.models(id.kind).len() || self.models(
                    id.kind,
                )[id.index as int] is None,
            },
    {
        let list = match id.kind {
            AtlasTextureKind::Monochrome => &self.monochrome_textures,
            AtlasTextureKind::Polychrome => &self.polychrome_textures,
        };
        let ix = id.index as usize;
        if ix >= list.textures.len() {
            return None;
        }
        match &list.textures[ix] {
            Some(texture) => Some((texture.size(), texture.format())),
            None => None,
        }
    }

    /// Drain the buffered uploads for this frame, in the order they were
    /// queued. The caller writes them to the textures before any draw pass
    /// reads from the atlas.
    pub fn before_frame(&mut self) -> (r: Vec<PendingUpload>)
        requires
            old(self).wf(),
        ensures
            final(self).wf(),
            r@ == old(self).pending(),
            final(self).pending().len() == 0,
            final(self).tiles() == old(self).tiles(),
            forall|k: AtlasTextureKind|
                #[trigger] final(self).models(k) == old(self).models(k) && final(self).free_slots(
                    k,
                ) == old(self).free_slots(k),
    {
        let mut out: Vec<PendingUpload> = Vec::new();
        core::mem::swap(&mut out, &mut self.uploads);
        out
    }
}

/// An allocation into an existing texture leaves the tile live in its
/// texture's model.
proof fn lemma_allocated_tile_live(
    oldm: Seq<Option<TexModel>>,
    newm: Seq<Option<TexModel>>,
    oldf: Seq<usize>,
    newf: Seq<usize>,
    tile: AtlasTile,
    size: Size,
)
    requires
        list_allocated_existing(oldm, newm, oldf, newf, tile, size),
    ensures
        tile_live_in(newm, tile),
{
    let i = choose|i: int|
        0 <= i < oldm.len() && #[trigger] allocated_in_slot(oldm[i], newm[i], tile, size) && newm
            == oldm.update(i, newm[i]) && tile.texture_id.index == i;
    assert(allocated_in_slot(oldm[i], newm[i], tile, size));
}

/// Law: when no texture of the kind is live, the next texture creation
/// takes the most recently freed slot index — only with an empty free list
/// does a new slot get appended.
pub proof fn lemma_freed_slot_reused_first(
    oldm: Seq<Option<TexModel>>,
    newm: Seq<Option<TexModel>>,
    oldf: Seq<usize>,
    newf: Seq<usize>,
    tile: AtlasTile,
    size: Size,
    kind: AtlasTextureKind,
)
    requires
        list_allocated_existing(oldm, newm, oldf, newf, tile, size) || list_allocated_fresh(
            oldm,
            newm,
            oldf,
            newf,
            tile,
            size,
            kind,
        ),
        forall|i: int| 0 <= i < oldm.len() ==> oldm[i] is None,
    ensures
        oldf.len() > 0 ==> tile.texture_id.index == oldf.last() && newf == oldf.drop_last(),
        oldf.len() == 0 ==> tile.texture_id.index == oldm.len() && newm.len() == oldm.len() + 1,
{
    if list_allocated_existing(oldm, newm, oldf, newf, tile, size) {
        let i = choose|i: int|
            0 <= i < oldm.len() && #[trigger] allocated_in_slot(oldm[i], newm[i], tile, size)
                && newm == oldm.update(i, newm[i]) && tile.texture_id.index == i;
        // impossible: allocation into an existing texture needs a live slot,
        // and every slot is empty
        assert(oldm[i] is None);
        assert(false);
    }
}

/// Law: removing a key twice is the same as removing it once, and after
/// either the cache no longer contains the key.
pub proof fn lemma_remove_twice(tiles: Map<u128, AtlasTile>, code: u128)
    ensures
        tiles.remove(code).remove(code) =~= tiles.remove(code),
        !tiles.remove(code).contains_key(code),
{
}

/// Law: within one well-formed texture, the bounds of two distinct live
/// tiles never overlap — whatever sequence of allocations and frees
/// produced the texture's current state.
pub proof fn lemma_live_tiles_disjoint(
    t: AtlasTexture,
    id1: u32,
    b1: Bounds,
    id2: u32,
    b2: Bounds,
)
    requires
        t.wf(),
        id1 != id2,
        t.model().regions.contains_key(id1),
        t.model().regions.contains_key(id2),
        bounds_in_region(b1, t.model().regions[id1]),
        bounds_in_region(b2, t.model().regions[id2]),
    ensures
        Bounds::spec_disjoint(b1, b2),
{
}

} // verus!
