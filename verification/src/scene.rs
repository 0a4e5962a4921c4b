//! The primitives a frame is made of, batched in paint order.
//!
//! Color channels and texture coordinates are carried as opaque 32-bit
//! values: the renderer never computes with them, it only lays them out for
//! the GPU, so they travel through the crate as the raw words the shell
//! hands in. Coordinates are whole scaled pixels (`i32`).

use vstd::prelude::*;
use crate::atlas::{AtlasTextureId, AtlasTile};
use crate::geometry::{Bounds, Point};

verus! {

/// A color: hue, saturation, lightness, alpha, each an opaque 32-bit word.
#[derive(Clone, Copy, Debug, PartialEq, Eq, Structural)]
pub struct Hsla {
    pub h: u32,
    pub s: u32,
    pub l: u32,
    pub a: u32,
}

/// One stop of a two-stop gradient.
#[derive(Clone, Copy, Debug, PartialEq, Eq, Structural)]
pub struct LinearColorStop {
    pub color: Hsla,
    pub percentage: u32,
}

/// A solid color or a gradient descriptor with up to two stops.
#[derive(Clone, Copy, Debug, PartialEq, Eq, Structural)]
pub struct Background {
    pub tag: u32,
    pub color_space: u32,
    pub solid: Hsla,
    pub gradient_angle_or_pattern_height: u32,
    pub stop0: LinearColorStop,
    pub stop1: LinearColorStop,
}

/// Corner radii of a rounded rectangle, in pixels.
#[derive(Clone, Copy, Debug, PartialEq, Eq, Structural)]
pub struct Corners {
    pub top_left: i32,
    pub top_right: i32,
    pub bottom_right: i32,
    pub bottom_left: i32,
}

/// Border widths of a rectangle's four edges, in pixels.
#[derive(Clone, Copy, Debug, PartialEq, Eq, Structural)]
pub struct Edges {
    pub top: i32,
    pub right: i32,
    pub bottom: i32,
    pub left: i32,
}

/// A 2x2 rotation/scale block plus a translation, each entry an opaque
/// 32-bit word.
#[derive(Clone, Copy, Debug, PartialEq, Eq, Structural)]
pub struct TransformationMatrix {
    pub rotation_scale_00: u32,
    pub rotation_scale_01: u32,
    pub rotation_scale_10: u32,
    pub rotation_scale_11: u32,
    pub translation_x: u32,
    pub translation_y: u32,
}

/// A filled, possibly rounded and bordered rectangle.
#[derive(Clone, Copy, Debug, PartialEq, Eq, Structural)]
pub struct Quad {
    pub bounds: Bounds,
    pub content_mask: Bounds,
    pub background: Background,
    pub border_color: Hsla,
    pub corner_radii: Corners,
    pub border_widths: Edges,
}

/// A blurred drop shadow of a rounded rectangle.
#[derive(Clone, Copy, Debug, PartialEq, Eq, Structural)]
pub struct Shadow {
    pub blur_radius: i32,
    pub bounds: Bounds,
    pub corner_radii: Corners,
    pub content_mask: Bounds,
    pub color: Hsla,
}

/// A straight or wavy underline.
#[derive(Clone, Copy, Debug, PartialEq, Eq, Structural)]
pub struct Underline {
    pub bounds: Bounds,
    pub content_mask: Bounds,
    pub color: Hsla,
    pub thickness: i32,
    pub wavy: u32,
}

/// A single-channel sprite (a glyph) colored at draw time.
#[derive(Clone, Copy, Debug, PartialEq, Eq, Structural)]
pub struct MonochromeSprite {
    pub bounds: Bounds,
    pub content_mask: Bounds,
    pub color: Hsla,
    pub tile: AtlasTile,
    pub transformation: TransformationMatrix,
}

/// A four-channel sprite (an image).
#[derive(Clone, Copy, Debug, PartialEq, Eq, Structural)]
pub struct PolychromeSprite {
    pub grayscale: bool,
    pub opacity: u32,
    pub bounds: Bounds,
    pub content_mask: Bounds,
    pub corner_radii: Corners,
    pub tile: AtlasTile,
}

/// One triangle-list vertex of a path, with its position in the path's
/// texture space as two opaque words.
#[derive(Clone, Copy, Debug, PartialEq, Eq, Structural)]
pub struct PathVertex {
    pub xy_position: Point,
    pub st_position_x: u32,
    pub st_position_y: u32,
}

/// An arbitrary filled polygon, rasterized off-screen and composited.
#[derive(Clone, Debug, PartialEq)]
pub struct Path {
    pub order: u32,
    pub bounds: Bounds,
    pub content_mask: Bounds,
    pub vertices: Vec<PathVertex>,
    pub color: Background,
}

impl Path {
    pub open spec fn wf(self) -> bool {
        &&& self.bounds.wf()
        &&& self.content_mask.wf()
    }

    /// The path's bounds clipped to its content mask.
    pub fn clipped_bounds(&self) -> (r: Bounds)
        requires
            self.wf(),
        ensures
            r == crate::geometry::spec_intersect(self.bounds, self.content_mask),
    {
        self.bounds.intersect(&self.content_mask)
    }
}

/// A homogeneous, paint-ordered run of primitives drawn with one pipeline
/// in one draw call. Order within and across batches is paint order and is
/// preserved by the renderer.
#[derive(Clone, Debug, PartialEq)]
pub enum PrimitiveBatch {
    Quads(Vec<Quad>),
    Shadows(Vec<Shadow>),
    Underlines(Vec<Underline>),
    MonochromeSprites { texture_id: AtlasTextureId, sprites: Vec<MonochromeSprite> },
    PolychromeSprites { texture_id: AtlasTextureId, sprites: Vec<PolychromeSprite> },
    Paths(Vec<Path>),
    /// Video surfaces, not supported by this backend; drawn as nothing.
    Surfaces(u32),
}

/// One frame's input: typed primitive batches in paint order.
#[derive(Clone, Debug, PartialEq)]
pub struct Scene {
    pub batches: Vec<PrimitiveBatch>,
}

impl Scene {
    pub fn new() -> (r: Scene)
        ensures
            r.batches@.len() == 0,
    {
        Scene { batches: Vec::new() }
    }

    pub fn push_batch(&mut self, batch: PrimitiveBatch)
        ensures
            final(self).batches@ == old(self).batches@.push(batch),
    {
        self.batches.push(batch);
    }
}

} // verus!
