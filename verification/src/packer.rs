//! Per-texture rectangle packing.
//!
//! One `AtlasAllocator` manages the free space of one fixed-size texture. The
//! packing itself is done by `etagere`'s bucketed shelf allocator; this module
//! states what that allocator guarantees and maintains, on top of it, the
//! invariant that the regions of all live allocations are pairwise disjoint
//! and lie within the texture.

use vstd::prelude::*;
use crate::geometry::{Bounds, Point, Size};

verus! {

#[verifier::external_type_specification]
#[verifier::external_body]
pub struct ExBucketedAtlasAllocator(etagere::BucketedAtlasAllocator);

/// A live allocation's region: (x, y, width, height), in pixels.
pub type Region = (int, int, int, int);

/// The regions of the currently-live allocations inside an `etagere`
/// allocator, keyed by the serialized allocation id.
pub uninterp spec fn packer_allocs(a: etagere::BucketedAtlasAllocator) -> Map<u32, Region>;

/// The (width, height) the `etagere` allocator was created with.
pub uninterp spec fn packer_grid(a: etagere::BucketedAtlasAllocator) -> (int, int);

/// True of an allocator still in its freshly created state: no shelves and
/// no buckets yet. Established by `new` and never re-established; the one
/// success guarantee below holds only here, because a long allocate/free
/// history can exhaust the allocator's internal bucket table even after
/// every allocation has been freed.
pub uninterp spec fn packer_fresh(a: etagere::BucketedAtlasAllocator) -> bool;

/// Whether `allocate` would succeed for this request on this allocator
/// state. The outcome is a function of the two alone — the search over
/// shelves and buckets (and the fallback shelf creation or coalescing) is
/// deterministic — so the name stands for that decision without spelling
/// the search out; `allocate` reports it, failing exactly when this is
/// false and leaving the allocator untouched in that case.
pub uninterp spec fn packer_has_room(
    a: etagere::BucketedAtlasAllocator,
    width: int,
    height: int,
) -> bool;

/// True when the two regions share no pixel.
pub open spec fn regions_disjoint(a: Region, b: Region) -> bool {
    ||| a.0 + a.2 <= b.0
    ||| b.0 + b.2 <= a.0
    ||| a.1 + a.3 <= b.1
    ||| b.1 + b.3 <= a.1
}

/// True when the bounds lie inside the region, sharing its left edge and
/// top edge (a tile occupies the upper-left part of its allocated region).
pub open spec fn bounds_in_region(b: Bounds, r: Region) -> bool {
    &&& b.left() == r.0
    &&& b.top() == r.1
    &&& b.right() <= r.0 + r.2
    &&& b.bottom() <= r.1 + r.3
}

/// True when the region is non-degenerate and lies within a `w` by `h` grid.
pub open spec fn region_within(r: Region, w: int, h: int) -> bool {
    &&& 0 <= r.0
    &&& 0 <= r.1
    &&& 0 < r.2
    &&& 0 < r.3
    &&& r.0 + r.2 <= w
    &&& r.1 + r.3 <= h
}

/// Relies on `etagere::BucketedAtlasAllocator::new` (default options:
/// horizontal shelves, one column, alignment 1): it creates an empty
/// allocator over a `width` by `height` grid, and panics only when a side
/// is at least `u16::MAX`. The grid area stays within `i32`: the packer
/// tracks its occupied space in a 32-bit counter that sums the areas of
/// the live (pairwise disjoint, in-grid) allocations, so a larger grid
/// could overflow that counter as the atlas fills.
#[verifier::external_body]
fn packer_new(width: i32, height: i32) -> (r: etagere::BucketedAtlasAllocator)
    requires
        1 <= width < 65535,
        1 <= height < 65535,
        width * height <= 0x7FFF_FFFF,
    ensures
        packer_grid(r) == (width as int, height as int),
        packer_allocs(r) =~= Map::empty(),
        packer_fresh(r),
{
    etagere::BucketedAtlasAllocator::new(etagere::size2(width, height))
}

/// Relies on `etagere::BucketedAtlasAllocator::allocate`: a successful
/// allocation returns a fresh id and a rectangle of exactly the requested
/// width and at least the requested height (the shelf's height), inside the
/// grid and disjoint from every live allocation's rectangle; space freed by
/// `deallocate` is never handed out while still live. The height stays at
/// or below 65472 (the largest multiple of 64 below the 16-bit limit):
/// shelf heights are rounded up to a multiple of 64 in 16-bit arithmetic,
/// so a larger request would overflow inside the packer. On a freshly
/// created allocator, a request no larger than the grid always succeeds:
/// the first shelf can always be added and its buckets are at least as
/// wide as the request. Live allocations number fewer than 2^24: ids pack
/// a 12-bit bucket index and a 12-bit per-bucket item counter. The grid
/// area must be within `i32` (as `new` guarantees for every allocator this
/// module creates): each success adds the new region's area to the
/// packer's 32-bit occupancy counter, whose running sum stays at or below
/// the grid area.
#[verifier::external_body]
fn packer_allocate(a: &mut etagere::BucketedAtlasAllocator, width: i32, height: i32) -> (r: Option<
    (u32, i32, i32, i32, i32),
>)
    requires
        1 <= width < 65535,
        1 <= height <= 65472,
        packer_grid(*old(a)).0 * packer_grid(*old(a)).1 <= 0x7FFF_FFFF,
    ensures
        packer_grid(*final(a)) == packer_grid(*old(a)),
        (r is Some) <==> packer_has_room(*old(a), width as int, height as int),
        r is None ==> *final(a) == *old(a),
        match r {
            None => packer_allocs(*final(a)) == packer_allocs(*old(a)),
            Some((id, x, y, w, h)) => {
                &&& !packer_allocs(*old(a)).contains_key(id)
                &&& packer_allocs(*final(a)) == packer_allocs(*old(a)).insert(
                    id,
                    (x as int, y as int, w as int, h as int),
                )
                &&& w == width
                &&& h >= height
                &&& region_within(
                    (x as int, y as int, w as int, h as int),
                    packer_grid(*old(a)).0,
                    packer_grid(*old(a)).1,
                )
                &&& forall|other: u32|
                    packer_allocs(*old(a)).contains_key(other) ==> regions_disjoint(
                        (x as int, y as int, w as int, h as int),
                        packer_allocs(*old(a))[other],
                    )
                &&& packer_allocs(*final(a)).len() < 0x100_0000
            },
        },
        (packer_fresh(*old(a)) && width <= packer_grid(*old(a)).0 && height <= packer_grid(
            *old(a),
        ).1) ==> r is Some,
{
    match a.allocate(etagere::size2(width, height)) {
        Some(alloc) => {
            let rect = alloc.rectangle;
            Some(
                (
                    alloc.id.serialize(),
                    rect.min.x,
                    rect.min.y,
                    rect.max.x - rect.min.x,
                    rect.max.y - rect.min.y,
                ),
            )
        },
        None => None,
    }
}

/// Relies on `etagere::BucketedAtlasAllocator::deallocate`: it frees the
/// live allocation with that id (and panics on an id that is not live,
/// which the precondition rules out).
#[verifier::external_body]
fn packer_deallocate(a: &mut etagere::BucketedAtlasAllocator, id: u32)
    requires
        packer_allocs(*old(a)).contains_key(id),
    ensures
        packer_grid(*final(a)) == packer_grid(*old(a)),
        packer_allocs(*final(a)) == packer_allocs(*old(a)).remove(id),
{
    a.deallocate(etagere::AllocId::deserialize(id));
}

/// The invariant a texture's live regions keep: finitely many (fewer than
/// the packer's id space allows), each within the grid, and pairwise
/// disjoint.
pub open spec fn allocator_inv(regions: Map<u32, Region>, size: Size) -> bool {
    &&& regions.dom().finite()
    &&& regions.len() < 0x100_0000
    &&& forall|id: u32| #[trigger]
        regions.contains_key(id) ==> region_within(
            regions[id],
            size.width as int,
            size.height as int,
        )
    &&& forall|id1: u32, id2: u32|
        id1 != id2 && #[trigger] regions.contains_key(id1) && #[trigger] regions.contains_key(
            id2,
        ) ==> regions_disjoint(regions[id1], regions[id2])
}

/// The rectangle packer for one atlas texture. Allocates and frees
/// axis-aligned regions within a fixed grid; never grows, never moves an
/// allocation.
pub struct AtlasAllocator {
    grid: etagere::BucketedAtlasAllocator,
    size: Size,
}

impl AtlasAllocator {
    /// The regions of all live allocations, keyed by allocation id.
    pub closed spec fn regions(self) -> Map<u32, Region> {
        packer_allocs(self.grid)
    }

    /// The grid size this allocator was created with.
    pub closed spec fn spec_size(self) -> Size {
        self.size
    }

    /// True until the first allocation: the packer is still in its
    /// freshly created state.
    pub closed spec fn is_fresh(self) -> bool {
        packer_fresh(self.grid)
    }

    /// The packer's recorded grid size matches the size the allocator was
    /// created with.
    pub closed spec fn grid_matches(self) -> bool {
        packer_grid(self.grid) == (self.size.width as int, self.size.height as int)
    }

    /// Whether an allocation of this size would succeed on the current
    /// state.
    pub closed spec fn has_room(self, size: Size) -> bool {
        packer_has_room(self.grid, size.width as int, size.height as int)
    }

    /// Invariant: the grid matches the recorded size and has an area
    /// within `i32`, every live region lies within the grid, and live
    /// regions are pairwise disjoint.
    pub open spec fn wf(self) -> bool {
        &&& 1 <= self.spec_size().width < 65535
        &&& 1 <= self.spec_size().height < 65535
        &&& self.spec_size().width * self.spec_size().height <= 0x7FFF_FFFF
        &&& self.grid_matches()
        &&& allocator_inv(self.regions(), self.spec_size())
    }

    pub fn new(size: Size) -> (r: AtlasAllocator)
        requires
            1 <= size.width < 65535,
            1 <= size.height < 65535,
            size.width * size.height <= 0x7FFF_FFFF,
        ensures
            r.wf(),
            r.spec_size() == size,
            r.regions() == Map::<u32, Region>::empty(),
            r.is_fresh(),
    {
        let grid = packer_new(size.width, size.height);
        AtlasAllocator { grid, size }
    }

    pub fn size(&self) -> (r: Size)
        ensures
            r == self.spec_size(),
    {
        self.size
    }

    /// Allocate a region for a tile of the given size. On success the
    /// returned bounds have exactly the requested size, lie within a fresh
    /// region of the grid, and are disjoint from the bounds of every other
    /// live allocation. On a freshly created allocator a request that fits
    /// the grid never fails.
    pub fn allocate(&mut self, size: Size) -> (r: Option<(u32, Bounds)>)
        requires
            old(self).wf(),
            1 <= size.width < 65535,
            1 <= size.height <= 65472,
        ensures
            final(self).wf(),
            final(self).spec_size() == old(self).spec_size(),
            (r is Some) <==> old(self).has_room(size),
            r is None ==> *final(self) == *old(self),
            match r {
                None => final(self).regions() == old(self).regions(),
                Some((id, b)) => {
                    &&& !old(self).regions().contains_key(id)
                    &&& final(self).regions().contains_key(id)
                    &&& final(self).regions().remove(id) == old(self).regions()
                    &&& b.origin.x == final(self).regions()[id].0
                    &&& b.origin.y == final(self).regions()[id].1
                    &&& b.size == size
                    &&& b.wf()
                    &&& b.right() <= final(self).regions()[id].0 + final(self).regions()[id].2
                    &&& b.bottom() <= final(self).regions()[id].1 + final(self).regions()[id].3
                },
            },
            (old(self).is_fresh() && size.width <= old(self).spec_size().width && size.height
                <= old(self).spec_size().height) ==> r is Some,
    {
        let ghost old_regions = packer_allocs(self.grid);
        let result = packer_allocate(&mut self.grid, size.width, size.height);
        match result {
            Some((id, x, y, w, h)) => {
                proof {
                    let new_regions = packer_allocs(self.grid);
                    assert(new_regions.remove(id) =~= old_regions);
                }
                Some(
                    (
                        id,
                        Bounds {
                            origin: Point { x, y },
                            size,
                        },
                    ),
                )
            },
            None => None,
        }
    }

    /// Return a live allocation's region to the free structure.
    pub fn deallocate(&mut self, id: u32)
        requires
            old(self).wf(),
            old(self).regions().contains_key(id),
        ensures
            final(self).wf(),
            final(self).spec_size() == old(self).spec_size(),
            final(self).regions() == old(self).regions().remove(id),
    {
        packer_deallocate(&mut self.grid, id);
    }
}

/// Law: for every sequence of `allocate` and `deallocate` calls on one
/// texture (that is, in every well-formed allocator state, which `new`
/// establishes and both operations preserve), the regions of two distinct
/// live allocations never overlap.
pub proof fn lemma_live_regions_disjoint(a: AtlasAllocator, id1: u32, id2: u32)
    requires
        a.wf(),
        a.regions().contains_key(id1),
        a.regions().contains_key(id2),
        id1 != id2,
    ensures
        regions_disjoint(a.regions()[id1], a.regions()[id2]),
{
}

} // verus!
