//! Packed GPU-side layouts.
//!
//! Every primitive maps to a fixed-layout structure of 32-bit words. This
//! module serializes primitives into those layouts byte by byte — each
//! field written little-endian at its documented offset — and describes the
//! matching vertex-buffer layouts the pipelines are built with. No layout
//! identity between two separately declared types is assumed anywhere: the
//! writer below is the layout.

use vstd::prelude::*;
use crate::geometry::Bounds;
use crate::scene::{
    Background, Hsla, MonochromeSprite, Path, PathVertex, PolychromeSprite, Quad, Shadow,
    TransformationMatrix, Underline,
};
use crate::atlas::AtlasTile;

verus! {

/// The four little-endian bytes of a 32-bit word.
pub open spec fn u32_le(x: u32) -> Seq<u8> {
    seq![
        (x % 256) as u8,
        ((x / 256) % 256) as u8,
        ((x / 65536) % 256) as u8,
        ((x / 16777216) % 256) as u8,
    ]
}

/// A signed 32-bit value is written as its two's-complement word.
pub open spec fn i32_le(x: i32) -> Seq<u8> {
    u32_le(x as u32)
}

fn push_u32_le(out: &mut Vec<u8>, x: u32)
    ensures
        final(out)@ == old(out)@ + u32_le(x),
{
    out.push((x % 256) as u8);
    out.push(((x / 256) % 256) as u8);
    out.push(((x / 65536) % 256) as u8);
    out.push(((x / 16777216) % 256) as u8);
    proof {
        assert(out@ =~= old(out)@ + u32_le(x));
    }
}

fn push_i32_le(out: &mut Vec<u8>, x: i32)
    ensures
        final(out)@ == old(out)@ + i32_le(x),
{
    push_u32_le(out, x as u32);
}

/// Bounds: origin x, origin y, width, height — 16 bytes.
#[verifier::opaque]
pub open spec fn bounds_bytes(b: Bounds) -> Seq<u8> {
    i32_le(b.origin.x) + i32_le(b.origin.y) + i32_le(b.size.width) + i32_le(b.size.height)
}

/// Color: h, s, l, a — 16 bytes.
#[verifier::opaque]
pub open spec fn hsla_bytes(c: Hsla) -> Seq<u8> {
    u32_le(c.h) + u32_le(c.s) + u32_le(c.l) + u32_le(c.a)
}

/// Background: tag, color space, solid color, gradient angle, two stops
/// (color then percentage each), one pad word — 72 bytes.
#[verifier::opaque]
pub open spec fn background_bytes(bg: Background) -> Seq<u8> {
    u32_le(bg.tag) + u32_le(bg.color_space) + hsla_bytes(bg.solid) + u32_le(
        bg.gradient_angle_or_pattern_height,
    ) + hsla_bytes(bg.stop0.color) + u32_le(bg.stop0.percentage) + hsla_bytes(bg.stop1.color)
        + u32_le(bg.stop1.percentage) + u32_le(0)
}

/// Corner radii: top left, top right, bottom right, bottom left — 16 bytes.
#[verifier::opaque]
pub open spec fn corners_bytes(c: crate::scene::Corners) -> Seq<u8> {
    i32_le(c.top_left) + i32_le(c.top_right) + i32_le(c.bottom_right) + i32_le(c.bottom_left)
}

/// Edge widths: top, right, bottom, left — 16 bytes.
#[verifier::opaque]
pub open spec fn edges_bytes(e: crate::scene::Edges) -> Seq<u8> {
    i32_le(e.top) + i32_le(e.right) + i32_le(e.bottom) + i32_le(e.left)
}

/// Atlas tile reference: tile origin x, y then width, height — 16 bytes.
#[verifier::opaque]
pub open spec fn tile_bytes(t: AtlasTile) -> Seq<u8> {
    bounds_bytes(t.bounds)
}

/// Transformation: the 2x2 block row by row, the translation, two pad
/// words — 32 bytes.
#[verifier::opaque]
pub open spec fn transformation_bytes(t: TransformationMatrix) -> Seq<u8> {
    u32_le(t.rotation_scale_00) + u32_le(t.rotation_scale_01) + u32_le(t.rotation_scale_10)
        + u32_le(t.rotation_scale_11) + u32_le(t.translation_x) + u32_le(t.translation_y) + u32_le(
        0,
    ) + u32_le(0)
}

/// Quad: bounds at 0, content mask at 16, background at 32, border color
/// at 104, corner radii at 120, border widths at 136 — 152 bytes.
#[verifier::opaque]
pub open spec fn quad_bytes(q: Quad) -> Seq<u8> {
    bounds_bytes(q.bounds) + bounds_bytes(q.content_mask) + background_bytes(q.background)
        + hsla_bytes(q.border_color) + corners_bytes(q.corner_radii) + edges_bytes(q.border_widths)
}

/// Shadow: blur radius at 0, three pad words, bounds at 16, corner radii
/// at 32, content mask at 48, color at 64 — 80 bytes.
#[verifier::opaque]
pub open spec fn shadow_bytes(s: Shadow) -> Seq<u8> {
    i32_le(s.blur_radius) + u32_le(0) + u32_le(0) + u32_le(0) + bounds_bytes(s.bounds)
        + corners_bytes(s.corner_radii) + bounds_bytes(s.content_mask) + hsla_bytes(s.color)
}

/// Underline: bounds at 0, content mask at 16, color at 32, thickness at
/// 48, wavy flag at 52, two pad words — 64 bytes.
#[verifier::opaque]
pub open spec fn underline_bytes(u: Underline) -> Seq<u8> {
    bounds_bytes(u.bounds) + bounds_bytes(u.content_mask) + hsla_bytes(u.color) + i32_le(
        u.thickness,
    ) + u32_le(u.wavy) + u32_le(0) + u32_le(0)
}

/// Monochrome sprite: bounds at 0, content mask at 16, color at 32, tile
/// at 48, transformation at 64 — 96 bytes.
#[verifier::opaque]
pub open spec fn mono_sprite_bytes(s: MonochromeSprite) -> Seq<u8> {
    bounds_bytes(s.bounds) + bounds_bytes(s.content_mask) + hsla_bytes(s.color) + tile_bytes(
        s.tile,
    ) + transformation_bytes(s.transformation)
}

/// Polychrome sprite: grayscale flag at 0, pad, opacity at 8, pad, bounds
/// at 16, content mask at 32, corner radii at 48, tile at 64 — 80 bytes.
#[verifier::opaque]
pub open spec fn poly_sprite_bytes(s: PolychromeSprite) -> Seq<u8> {
    u32_le(
        if s.grayscale {
            1
        } else {
            0
        },
    ) + u32_le(0) + u32_le(s.opacity) + u32_le(0) + bounds_bytes(s.bounds) + bounds_bytes(
        s.content_mask,
    ) + corners_bytes(s.corner_radii) + tile_bytes(s.tile)
}

/// Path rasterization vertex: position at 0, texture position at 8, the
/// path's color at 16, the path's clipped bounds at 88 — 104 bytes.
#[verifier::opaque]
pub open spec fn path_vertex_bytes(v: PathVertex, color: Background, clip: Bounds) -> Seq<u8> {
    i32_le(v.xy_position.x) + i32_le(v.xy_position.y) + u32_le(v.st_position_x) + u32_le(
        v.st_position_y,
    ) + background_bytes(color) + bounds_bytes(clip)
}

/// Path sprite: the copy rectangle's bounds — 16 bytes.
#[verifier::opaque]
pub open spec fn path_sprite_bytes(b: Bounds) -> Seq<u8> {
    bounds_bytes(b)
}

/// The instance buffer of a quad batch: each quad's bytes in order.
pub open spec fn quads_bytes_spec(s: Seq<Quad>) -> Seq<u8>
    decreases s.len(),
{
    if s.len() == 0 {
        Seq::empty()
    } else {
        quads_bytes_spec(s.drop_last()) + quad_bytes(s.last())
    }
}

/// The instance buffer of a shadow batch.
pub open spec fn shadows_bytes_spec(s: Seq<Shadow>) -> Seq<u8>
    decreases s.len(),
{
    if s.len() == 0 {
        Seq::empty()
    } else {
        shadows_bytes_spec(s.drop_last()) + shadow_bytes(s.last())
    }
}

/// The instance buffer of an underline batch.
pub open spec fn underlines_bytes_spec(s: Seq<Underline>) -> Seq<u8>
    decreases s.len(),
{
    if s.len() == 0 {
        Seq::empty()
    } else {
        underlines_bytes_spec(s.drop_last()) + underline_bytes(s.last())
    }
}

/// The instance buffer of a monochrome sprite batch.
pub open spec fn mono_sprites_bytes_spec(s: Seq<MonochromeSprite>) -> Seq<u8>
    decreases s.len(),
{
    if s.len() == 0 {
        Seq::empty()
    } else {
        mono_sprites_bytes_spec(s.drop_last()) + mono_sprite_bytes(s.last())
    }
}

/// The instance buffer of a polychrome sprite batch.
pub open spec fn poly_sprites_bytes_spec(s: Seq<PolychromeSprite>) -> Seq<u8>
    decreases s.len(),
{
    if s.len() == 0 {
        Seq::empty()
    } else {
        poly_sprites_bytes_spec(s.drop_last()) + poly_sprite_bytes(s.last())
    }
}

/// One path's rasterization vertices, each with the path's color and
/// clipped bounds.
pub open spec fn path_vertex_seq_bytes(vs: Seq<PathVertex>, color: Background, clip: Bounds) -> Seq<
    u8,
>
    decreases vs.len(),
{
    if vs.len() == 0 {
        Seq::empty()
    } else {
        path_vertex_seq_bytes(vs.drop_last(), color, clip) + path_vertex_bytes(
            vs.last(),
            color,
            clip,
        )
    }
}

/// One path's whole contribution to the rasterization vertex buffer.
pub open spec fn path_vertices_bytes(p: Path) -> Seq<u8> {
    path_vertex_seq_bytes(
        p.vertices@,
        p.color,
        crate::geometry::spec_intersect(p.bounds, p.content_mask),
    )
}

/// The whole vertex buffer of one path batch.
pub open spec fn paths_vertices_bytes(paths: Seq<Path>) -> Seq<u8>
    decreases paths.len(),
{
    if paths.len() == 0 {
        Seq::empty()
    } else {
        paths_vertices_bytes(paths.drop_last()) + path_vertices_bytes(paths.last())
    }
}

fn push_bounds(out: &mut Vec<u8>, b: &Bounds)
    ensures
        final(out)@ == old(out)@ + bounds_bytes(*b),
{
    push_i32_le(out, b.origin.x);
    push_i32_le(out, b.origin.y);
    push_i32_le(out, b.size.width);
    push_i32_le(out, b.size.height);
    proof {
        reveal(bounds_bytes);
        assert(out@ =~= old(out)@ + bounds_bytes(*b));
    }
}

fn push_hsla(out: &mut Vec<u8>, c: &Hsla)
    ensures
        final(out)@ == old(out)@ + hsla_bytes(*c),
{
    push_u32_le(out, c.h);
    push_u32_le(out, c.s);
    push_u32_le(out, c.l);
    push_u32_le(out, c.a);
    proof {
        reveal(hsla_bytes);
        assert(out@ =~= old(out)@ + hsla_bytes(*c));
    }
}

fn push_background(out: &mut Vec<u8>, bg: &Background)
    ensures
        final(out)@ == old(out)@ + background_bytes(*bg),
{
    push_u32_le(out, bg.tag);
    push_u32_le(out, bg.color_space);
    push_hsla(out, &bg.solid);
    push_u32_le(out, bg.gradient_angle_or_pattern_height);
    push_hsla(out, &bg.stop0.color);
    push_u32_le(out, bg.stop0.percentage);
    push_hsla(out, &bg.stop1.color);
    push_u32_le(out, bg.stop1.percentage);
    push_u32_le(out, 0);
    proof {
        reveal(background_bytes);
        assert(out@ =~= old(out)@ + background_bytes(*bg));
    }
}

fn push_corners(out: &mut Vec<u8>, c: &crate::scene::Corners)
    ensures
        final(out)@ == old(out)@ + corners_bytes(*c),
{
    push_i32_le(out, c.top_left);
    push_i32_le(out, c.top_right);
    push_i32_le(out, c.bottom_right);
    push_i32_le(out, c.bottom_left);
    proof {
        reveal(corners_bytes);
        assert(out@ =~= old(out)@ + corners_bytes(*c));
    }
}

fn push_edges(out: &mut Vec<u8>, e: &crate::scene::Edges)
    ensures
        final(out)@ == old(out)@ + edges_bytes(*e),
{
    push_i32_le(out, e.top);
    push_i32_le(out, e.right);
    push_i32_le(out, e.bottom);
    push_i32_le(out, e.left);
    proof {
        reveal(edges_bytes);
        assert(out@ =~= old(out)@ + edges_bytes(*e));
    }
}

fn push_transformation(out: &mut Vec<u8>, t: &TransformationMatrix)
    ensures
        final(out)@ == old(out)@ + transformation_bytes(*t),
{
    push_u32_le(out, t.rotation_scale_00);
    push_u32_le(out, t.rotation_scale_01);
    push_u32_le(out, t.rotation_scale_10);
    push_u32_le(out, t.rotation_scale_11);
    push_u32_le(out, t.translation_x);
    push_u32_le(out, t.translation_y);
    push_u32_le(out, 0);
    push_u32_le(out, 0);
    proof {
        reveal(transformation_bytes);
        assert(out@ =~= old(out)@ + transformation_bytes(*t));
    }
}

pub fn push_quad(out: &mut Vec<u8>, q: &Quad)
    ensures
        final(out)@ == old(out)@ + quad_bytes(*q),
{
    push_bounds(out, &q.bounds);
    push_bounds(out, &q.content_mask);
    push_background(out, &q.background);
    push_hsla(out, &q.border_color);
    push_corners(out, &q.corner_radii);
    push_edges(out, &q.border_widths);
    proof {
        reveal(quad_bytes);
        assert(out@ =~= old(out)@ + quad_bytes(*q));
    }
}

pub fn push_shadow(out: &mut Vec<u8>, s: &Shadow)
    ensures
        final(out)@ == old(out)@ + shadow_bytes(*s),
{
    push_i32_le(out, s.blur_radius);
    push_u32_le(out, 0);
    push_u32_le(out, 0);
    push_u32_le(out, 0);
    push_bounds(out, &s.bounds);
    push_corners(out, &s.corner_radii);
    push_bounds(out, &s.content_mask);
    push_hsla(out, &s.color);
    proof {
        reveal(shadow_bytes);
        assert(out@ =~= old(out)@ + shadow_bytes(*s));
    }
}

pub fn push_underline(out: &mut Vec<u8>, u: &Underline)
    ensures
        final(out)@ == old(out)@ + underline_bytes(*u),
{
    push_bounds(out, &u.bounds);
    push_bounds(out, &u.content_mask);
    push_hsla(out, &u.color);
    push_i32_le(out, u.thickness);
    push_u32_le(out, u.wavy);
    push_u32_le(out, 0);
    push_u32_le(out, 0);
    proof {
        reveal(underline_bytes);
        assert(out@ =~= old(out)@ + underline_bytes(*u));
    }
}

pub fn push_mono_sprite(out: &mut Vec<u8>, s: &MonochromeSprite)
    ensures
        final(out)@ == old(out)@ + mono_sprite_bytes(*s),
{
    push_bounds(out, &s.bounds);
    push_bounds(out, &s.content_mask);
    push_hsla(out, &s.color);
    push_bounds(out, &s.tile.bounds);
    push_transformation(out, &s.transformation);
    proof {
        reveal(mono_sprite_bytes);
        reveal(tile_bytes);
        assert(out@ =~= old(out)@ + mono_sprite_bytes(*s));
    }
}

pub fn push_poly_sprite(out: &mut Vec<u8>, s: &PolychromeSprite)
    ensures
        final(out)@ == old(out)@ + poly_sprite_bytes(*s),
{
    if s.grayscale {
        push_u32_le(out, 1);
    } else {
        push_u32_le(out, 0);
    }
    push_u32_le(out, 0);
    push_u32_le(out, s.opacity);
    push_u32_le(out, 0);
    push_bounds(out, &s.bounds);
    push_bounds(out, &s.content_mask);
    push_corners(out, &s.corner_radii);
    push_bounds(out, &s.tile.bounds);
    proof {
        reveal(poly_sprite_bytes);
        reveal(tile_bytes);
        assert(out@ =~= old(out)@ + poly_sprite_bytes(*s));
    }
}

pub fn push_path_vertex(out: &mut Vec<u8>, v: &PathVertex, color: &Background, clip: &Bounds)
    ensures
        final(out)@ == old(out)@ + path_vertex_bytes(*v, *color, *clip),
{
    push_i32_le(out, v.xy_position.x);
    push_i32_le(out, v.xy_position.y);
    push_u32_le(out, v.st_position_x);
    push_u32_le(out, v.st_position_y);
    push_background(out, color);
    push_bounds(out, clip);
    proof {
        reveal(path_vertex_bytes);
        assert(out@ =~= old(out)@ + path_vertex_bytes(*v, *color, *clip));
    }
}

/// Serialize a whole batch of quads into one instance buffer.
pub fn quads_bytes(quads: &Vec<Quad>) -> (r: Vec<u8>)
    ensures
        r@ == quads_bytes_spec(quads@),
{
    let mut out: Vec<u8> = Vec::new();
    let mut i: usize = 0;
    while i < quads.len()
        invariant
            i <= quads@.len(),
            out@ == quads_bytes_spec(quads@.subrange(0, i as int)),
        decreases quads@.len() - i,
    {
        push_quad(&mut out, &quads[i]);
        proof {
            assert(quads@.subrange(0, i + 1int).drop_last() =~= quads@.subrange(0, i as int));
            assert(quads@.subrange(0, i + 1int).last() == quads@[i as int]);
        }
        i = i + 1;
    }
    proof {
        assert(quads@.subrange(0, quads@.len() as int) =~= quads@);
    }
    out
}

pub fn shadows_bytes(shadows: &Vec<Shadow>) -> (r: Vec<u8>)
    ensures
        r@ == shadows_bytes_spec(shadows@),
{
    let mut out: Vec<u8> = Vec::new();
    let mut i: usize = 0;
    while i < shadows.len()
        invariant
            i <= shadows@.len(),
            out@ == shadows_bytes_spec(shadows@.subrange(0, i as int)),
        decreases shadows@.len() - i,
    {
        push_shadow(&mut out, &shadows[i]);
        proof {
            assert(shadows@.subrange(0, i + 1int).drop_last() =~= shadows@.subrange(0, i as int));
            assert(shadows@.subrange(0, i + 1int).last() == shadows@[i as int]);
        }
        i = i + 1;
    }
    proof {
        assert(shadows@.subrange(0, shadows@.len() as int) =~= shadows@);
    }
    out
}

pub fn underlines_bytes(underlines: &Vec<Underline>) -> (r: Vec<u8>)
    ensures
        r@ == underlines_bytes_spec(underlines@),
{
    let mut out: Vec<u8> = Vec::new();
    let mut i: usize = 0;
    while i < underlines.len()
        invariant
            i <= underlines@.len(),
            out@ == underlines_bytes_spec(underlines@.subrange(0, i as int)),
        decreases underlines@.len() - i,
    {
        push_underline(&mut out, &underlines[i]);
        proof {
            assert(underlines@.subrange(0, i + 1int).drop_last() =~= underlines@.subrange(
                0,
                i as int,
            ));
            assert(underlines@.subrange(0, i + 1int).last() == underlines@[i as int]);
        }
        i = i + 1;
    }
    proof {
        assert(underlines@.subrange(0, underlines@.len() as int) =~= underlines@);
    }
    out
}

pub fn mono_sprites_bytes(sprites: &Vec<MonochromeSprite>) -> (r: Vec<u8>)
    ensures
        r@ == mono_sprites_bytes_spec(sprites@),
{
    let mut out: Vec<u8> = Vec::new();
    let mut i: usize = 0;
    while i < sprites.len()
        invariant
            i <= sprites@.len(),
            out@ == mono_sprites_bytes_spec(sprites@.subrange(0, i as int)),
        decreases sprites@.len() - i,
    {
        push_mono_sprite(&mut out, &sprites[i]);
        proof {
            assert(sprites@.subrange(0, i + 1int).drop_last() =~= sprites@.subrange(0, i as int));
            assert(sprites@.subrange(0, i + 1int).last() == sprites@[i as int]);
        }
        i = i + 1;
    }
    proof {
        assert(sprites@.subrange(0, sprites@.len() as int) =~= sprites@);
    }
    out
}

pub fn poly_sprites_bytes(sprites: &Vec<PolychromeSprite>) -> (r: Vec<u8>)
    ensures
        r@ == poly_sprites_bytes_spec(sprites@),
{
    let mut out: Vec<u8> = Vec::new();
    let mut i: usize = 0;
    while i < sprites.len()
        invariant
            i <= sprites@.len(),
            out@ == poly_sprites_bytes_spec(sprites@.subrange(0, i as int)),
        decreases sprites@.len() - i,
    {
        push_poly_sprite(&mut out, &sprites[i]);
        proof {
            assert(sprites@.subrange(0, i + 1int).drop_last() =~= sprites@.subrange(0, i as int));
            assert(sprites@.subrange(0, i + 1int).last() == sprites@[i as int]);
        }
        i = i + 1;
    }
    proof {
        assert(sprites@.subrange(0, sprites@.len() as int) =~= sprites@);
    }
    out
}

fn one_path_vertices_bytes(out: &mut Vec<u8>, p: &Path)
    requires
        p.wf(),
    ensures
        final(out)@ == old(out)@ + path_vertices_bytes(*p),
{
    let clip = p.clipped_bounds();
    let ghost spec_clip = crate::geometry::spec_intersect(p.bounds, p.content_mask);
    let mut j: usize = 0;
    while j < p.vertices.len()
        invariant
            j <= p.vertices@.len(),
            clip == spec_clip,
            spec_clip == crate::geometry::spec_intersect(p.bounds, p.content_mask),
            out@ == old(out)@ + path_vertex_seq_bytes(
                p.vertices@.subrange(0, j as int),
                p.color,
                spec_clip,
            ),
        decreases p.vertices@.len() - j,
    {
        push_path_vertex(out, &p.vertices[j], &p.color, &clip);
        proof {
            assert(p.vertices@.subrange(0, j + 1int).drop_last() =~= p.vertices@.subrange(
                0,
                j as int,
            ));
            assert(p.vertices@.subrange(0, j + 1int).last() == p.vertices@[j as int]);
        }
        j = j + 1;
    }
    proof {
        assert(p.vertices@.subrange(0, p.vertices@.len() as int) =~= p.vertices@);
    }
}

/// Serialize a whole path batch's rasterization vertices.
pub fn paths_vertex_buffer(paths: &Vec<Path>) -> (r: Vec<u8>)
    requires
        forall|i: int| 0 <= i < paths@.len() ==> (#[trigger] paths@[i]).wf(),
    ensures
        r@ == paths_vertices_bytes(paths@),
{
    let mut out: Vec<u8> = Vec::new();
    let mut i: usize = 0;
    while i < paths.len()
        invariant
            i <= paths@.len(),
            forall|k: int| 0 <= k < paths@.len() ==> (#[trigger] paths@[k]).wf(),
            out@ == paths_vertices_bytes(paths@.subrange(0, i as int)),
        decreases paths@.len() - i,
    {
        one_path_vertices_bytes(&mut out, &paths[i]);
        proof {
            assert(paths@.subrange(0, i + 1int).drop_last() =~= paths@.subrange(0, i as int));
            assert(paths@.subrange(0, i + 1int).last() == paths@[i as int]);
        }
        i = i + 1;
    }
    proof {
        assert(paths@.subrange(0, paths@.len() as int) =~= paths@);
    }
    out
}


/// The instance buffer of a path-sprite copy pass: one rectangle per
/// instance.
pub open spec fn path_sprites_bytes_spec(s: Seq<Bounds>) -> Seq<u8>
    decreases s.len(),
{
    if s.len() == 0 {
        Seq::empty()
    } else {
        path_sprites_bytes_spec(s.drop_last()) + path_sprite_bytes(s.last())
    }
}

pub fn path_sprites_buffer(bs: &Vec<Bounds>) -> (r: Vec<u8>)
    ensures
        r@ == path_sprites_bytes_spec(bs@),
{
    let mut out: Vec<u8> = Vec::new();
    let mut i: usize = 0;
    while i < bs.len()
        invariant
            i <= bs@.len(),
            out@ == path_sprites_bytes_spec(bs@.subrange(0, i as int)),
        decreases bs@.len() - i,
    {
        push_bounds(&mut out, &bs[i]);
        proof {
            reveal(path_sprite_bytes);
            assert(bs@.subrange(0, i + 1int).drop_last() =~= bs@.subrange(0, i as int));
            assert(bs@.subrange(0, i + 1int).last() == bs@[i as int]);
        }
        i = i + 1;
    }
    proof {
        assert(bs@.subrange(0, bs@.len() as int) =~= bs@);
    }
    out
}


/// A vertex attribute format, as the pipelines declare them.
#[derive(Clone, Copy, Debug, PartialEq, Eq, Structural)]
pub enum VertexFormat {
    Float32x2,
    Float32x4,
    Uint32x2,
    Sint32x2,
}

/// Whether a buffer advances per vertex or per instance.
#[derive(Clone, Copy, Debug, PartialEq, Eq, Structural)]
pub enum VertexStepMode {
    Vertex,
    Instance,
}

/// One attribute of a vertex buffer: its format, its byte offset within
/// the stride, and the shader location it feeds.
#[derive(Clone, Copy, Debug, PartialEq, Eq, Structural)]
pub struct VertexAttribute {
    pub format: VertexFormat,
    pub offset: u32,
    pub shader_location: u32,
}

/// A whole vertex-buffer layout: stride, step mode, attributes in
/// location order.
#[derive(Clone, Debug, PartialEq)]
pub struct VertexBufferLayoutDesc {
    pub array_stride: u32,
    pub step_mode: VertexStepMode,
    pub attributes: Vec<VertexAttribute>,
}

/// Build a layout from its attribute table.
fn layout_from(
    array_stride: u32,
    step_mode: VertexStepMode,
    attrs: Vec<VertexAttribute>,
) -> (r: VertexBufferLayoutDesc)
    ensures
        r.array_stride == array_stride,
        r.step_mode == step_mode,
        r.attributes@ == attrs@,
{
    VertexBufferLayoutDesc { array_stride, step_mode, attributes: attrs }
}

pub open spec fn attr(format: VertexFormat, offset: u32, shader_location: u32) -> VertexAttribute {
    VertexAttribute { format, offset, shader_location }
}

fn push_attr(out: &mut Vec<VertexAttribute>, format: VertexFormat, offset: u32, shader_location: u32)
    ensures
        final(out)@ == old(out)@.push(attr(format, offset, shader_location)),
{
    out.push(VertexAttribute { format, offset, shader_location });
}

/// The quad layout's attributes: the quad's fields at the offsets the
/// serializer writes them to.
pub open spec fn quad_layout_attrs() -> Seq<VertexAttribute> {
    seq![
        attr(VertexFormat::Float32x2, 0, 0),
        attr(VertexFormat::Float32x2, 8, 1),
        attr(VertexFormat::Float32x2, 16, 2),
        attr(VertexFormat::Float32x2, 24, 3),
        attr(VertexFormat::Uint32x2, 32, 4),
        attr(VertexFormat::Float32x4, 40, 5),
        attr(VertexFormat::Float32x4, 56, 6),
        attr(VertexFormat::Float32x4, 72, 7),
        attr(VertexFormat::Float32x4, 88, 8),
        attr(VertexFormat::Float32x4, 104, 9),
        attr(VertexFormat::Float32x4, 120, 10),
        attr(VertexFormat::Float32x4, 136, 11),
    ]
}

/// The instanced layout of the quad pipeline: bounds, content mask,
/// background (tag and color space, solid color, gradient words), border
/// color, corner radii, border widths.
pub fn quad_vertex_buffer_layout() -> (r: VertexBufferLayoutDesc)
    ensures
        r.array_stride == 152,
        r.step_mode == VertexStepMode::Instance,
        r.attributes@ == quad_layout_attrs(),
{
    let mut attrs: Vec<VertexAttribute> = Vec::new();
    push_attr(&mut attrs, VertexFormat::Float32x2, 0, 0);
    push_attr(&mut attrs, VertexFormat::Float32x2, 8, 1);
    push_attr(&mut attrs, VertexFormat::Float32x2, 16, 2);
    push_attr(&mut attrs, VertexFormat::Float32x2, 24, 3);
    push_attr(&mut attrs, VertexFormat::Uint32x2, 32, 4);
    push_attr(&mut attrs, VertexFormat::Float32x4, 40, 5);
    push_attr(&mut attrs, VertexFormat::Float32x4, 56, 6);
    push_attr(&mut attrs, VertexFormat::Float32x4, 72, 7);
    push_attr(&mut attrs, VertexFormat::Float32x4, 88, 8);
    push_attr(&mut attrs, VertexFormat::Float32x4, 104, 9);
    push_attr(&mut attrs, VertexFormat::Float32x4, 120, 10);
    push_attr(&mut attrs, VertexFormat::Float32x4, 136, 11);
    proof {
        assert(attrs@ =~= quad_layout_attrs());
    }
    layout_from(152, VertexStepMode::Instance, attrs)
}

/// The shadow layout's attributes.
pub open spec fn shadow_layout_attrs() -> Seq<VertexAttribute> {
    seq![
        attr(VertexFormat::Float32x4, 0, 0),
        attr(VertexFormat::Float32x2, 16, 1),
        attr(VertexFormat::Float32x2, 24, 2),
        attr(VertexFormat::Float32x4, 32, 3),
        attr(VertexFormat::Float32x2, 48, 4),
        attr(VertexFormat::Float32x2, 56, 5),
        attr(VertexFormat::Float32x4, 64, 6),
    ]
}

/// The instanced layout of the shadow pipeline: blur radius and padding,
/// bounds, corner radii, content mask, color.
pub fn shadow_vertex_buffer_layout() -> (r: VertexBufferLayoutDesc)
    ensures
        r.array_stride == 80,
        r.step_mode == VertexStepMode::Instance,
        r.attributes@ == shadow_layout_attrs(),
{
    let mut attrs: Vec<VertexAttribute> = Vec::new();
    push_attr(&mut attrs, VertexFormat::Float32x4, 0, 0);
    push_attr(&mut attrs, VertexFormat::Float32x2, 16, 1);
    push_attr(&mut attrs, VertexFormat::Float32x2, 24, 2);
    push_attr(&mut attrs, VertexFormat::Float32x4, 32, 3);
    push_attr(&mut attrs, VertexFormat::Float32x2, 48, 4);
    push_attr(&mut attrs, VertexFormat::Float32x2, 56, 5);
    push_attr(&mut attrs, VertexFormat::Float32x4, 64, 6);
    proof {
        assert(attrs@ =~= shadow_layout_attrs());
    }
    layout_from(80, VertexStepMode::Instance, attrs)
}

/// The underline layout's attributes.
pub open spec fn underline_layout_attrs() -> Seq<VertexAttribute> {
    seq![
        attr(VertexFormat::Float32x2, 0, 0),
        attr(VertexFormat::Float32x2, 8, 1),
        attr(VertexFormat::Float32x2, 16, 2),
        attr(VertexFormat::Float32x2, 24, 3),
        attr(VertexFormat::Float32x4, 32, 4),
        attr(VertexFormat::Float32x4, 48, 5),
    ]
}

/// The instanced layout of the underline pipeline: bounds, content mask,
/// color, then thickness, wavy flag and padding.
pub fn underline_vertex_buffer_layout() -> (r: VertexBufferLayoutDesc)
    ensures
        r.array_stride == 64,
        r.step_mode == VertexStepMode::Instance,
        r.attributes@ == underline_layout_attrs(),
{
    let mut attrs: Vec<VertexAttribute> = Vec::new();
    push_attr(&mut attrs, VertexFormat::Float32x2, 0, 0);
    push_attr(&mut attrs, VertexFormat::Float32x2, 8, 1);
    push_attr(&mut attrs, VertexFormat::Float32x2, 16, 2);
    push_attr(&mut attrs, VertexFormat::Float32x2, 24, 3);
    push_attr(&mut attrs, VertexFormat::Float32x4, 32, 4);
    push_attr(&mut attrs, VertexFormat::Float32x4, 48, 5);
    proof {
        assert(attrs@ =~= underline_layout_attrs());
    }
    layout_from(64, VertexStepMode::Instance, attrs)
}

/// The monochrome sprite layout's attributes.
pub open spec fn mono_sprite_layout_attrs() -> Seq<VertexAttribute> {
    seq![
        attr(VertexFormat::Float32x2, 0, 0),
        attr(VertexFormat::Float32x2, 8, 1),
        attr(VertexFormat::Float32x2, 16, 2),
        attr(VertexFormat::Float32x2, 24, 3),
        attr(VertexFormat::Float32x4, 32, 4),
        attr(VertexFormat::Sint32x2, 48, 5),
        attr(VertexFormat::Sint32x2, 56, 6),
        attr(VertexFormat::Float32x2, 64, 7),
        attr(VertexFormat::Float32x2, 72, 8),
        attr(VertexFormat::Float32x4, 80, 9),
    ]
}

/// The instanced layout of the monochrome sprite pipeline: bounds,
/// content mask, color, atlas tile, transformation.
pub fn mono_sprite_vertex_buffer_layout() -> (r: VertexBufferLayoutDesc)
    ensures
        r.array_stride == 96,
        r.step_mode == VertexStepMode::Instance,
        r.attributes@ == mono_sprite_layout_attrs(),
{
    let mut attrs: Vec<VertexAttribute> = Vec::new();
    push_attr(&mut attrs, VertexFormat::Float32x2, 0, 0);
    push_attr(&mut attrs, VertexFormat::Float32x2, 8, 1);
    push_attr(&mut attrs, VertexFormat::Float32x2, 16, 2);
    push_attr(&mut attrs, VertexFormat::Float32x2, 24, 3);
    push_attr(&mut attrs, VertexFormat::Float32x4, 32, 4);
    push_attr(&mut attrs, VertexFormat::Sint32x2, 48, 5);
    push_attr(&mut attrs, VertexFormat::Sint32x2, 56, 6);
    push_attr(&mut attrs, VertexFormat::Float32x2, 64, 7);
    push_attr(&mut attrs, VertexFormat::Float32x2, 72, 8);
    push_attr(&mut attrs, VertexFormat::Float32x4, 80, 9);
    proof {
        assert(attrs@ =~= mono_sprite_layout_attrs());
    }
    layout_from(96, VertexStepMode::Instance, attrs)
}

/// The polychrome sprite layout's attributes.
pub open spec fn poly_sprite_layout_attrs() -> Seq<VertexAttribute> {
    seq![
        attr(VertexFormat::Uint32x2, 0, 0),
        attr(VertexFormat::Float32x2, 8, 1),
        attr(VertexFormat::Float32x2, 16, 2),
        attr(VertexFormat::Float32x2, 24, 3),
        attr(VertexFormat::Float32x2, 32, 4),
        attr(VertexFormat::Float32x2, 40, 5),
        attr(VertexFormat::Float32x4, 48, 6),
        attr(VertexFormat::Sint32x2, 64, 7),
        attr(VertexFormat::Sint32x2, 72, 8),
    ]
}

/// The instanced layout of the polychrome sprite pipeline: grayscale flag
/// and opacity, bounds, content mask, corner radii, atlas tile.
pub fn poly_sprite_vertex_buffer_layout() -> (r: VertexBufferLayoutDesc)
    ensures
        r.array_stride == 80,
        r.step_mode == VertexStepMode::Instance,
        r.attributes@ == poly_sprite_layout_attrs(),
{
    let mut attrs: Vec<VertexAttribute> = Vec::new();
    push_attr(&mut attrs, VertexFormat::Uint32x2, 0, 0);
    push_attr(&mut attrs, VertexFormat::Float32x2, 8, 1);
    push_attr(&mut attrs, VertexFormat::Float32x2, 16, 2);
    push_attr(&mut attrs, VertexFormat::Float32x2, 24, 3);
    push_attr(&mut attrs, VertexFormat::Float32x2, 32, 4);
    push_attr(&mut attrs, VertexFormat::Float32x2, 40, 5);
    push_attr(&mut attrs, VertexFormat::Float32x4, 48, 6);
    push_attr(&mut attrs, VertexFormat::Sint32x2, 64, 7);
    push_attr(&mut attrs, VertexFormat::Sint32x2, 72, 8);
    proof {
        assert(attrs@ =~= poly_sprite_layout_attrs());
    }
    layout_from(80, VertexStepMode::Instance, attrs)
}

/// The path rasterization layout's attributes.
pub open spec fn path_rasterization_layout_attrs() -> Seq<VertexAttribute> {
    seq![
        attr(VertexFormat::Float32x2, 0, 0),
        attr(VertexFormat::Float32x2, 8, 1),
        attr(VertexFormat::Uint32x2, 16, 2),
        attr(VertexFormat::Float32x4, 24, 3),
        attr(VertexFormat::Float32x4, 40, 4),
        attr(VertexFormat::Float32x4, 56, 5),
        attr(VertexFormat::Float32x4, 72, 6),
        attr(VertexFormat::Float32x2, 88, 7),
        attr(VertexFormat::Float32x2, 96, 8),
    ]
}

/// The per-vertex layout of the path rasterization pipeline: position,
/// texture position, color words, clipped bounds.
pub fn path_rasterization_vertex_buffer_layout() -> (r: VertexBufferLayoutDesc)
    ensures
        r.array_stride == 104,
        r.step_mode == VertexStepMode::Vertex,
        r.attributes@ == path_rasterization_layout_attrs(),
{
    let mut attrs: Vec<VertexAttribute> = Vec::new();
    push_attr(&mut attrs, VertexFormat::Float32x2, 0, 0);
    push_attr(&mut attrs, VertexFormat::Float32x2, 8, 1);
    push_attr(&mut attrs, VertexFormat::Uint32x2, 16, 2);
    push_attr(&mut attrs, VertexFormat::Float32x4, 24, 3);
    push_attr(&mut attrs, VertexFormat::Float32x4, 40, 4);
    push_attr(&mut attrs, VertexFormat::Float32x4, 56, 5);
    push_attr(&mut attrs, VertexFormat::Float32x4, 72, 6);
    push_attr(&mut attrs, VertexFormat::Float32x2, 88, 7);
    push_attr(&mut attrs, VertexFormat::Float32x2, 96, 8);
    proof {
        assert(attrs@ =~= path_rasterization_layout_attrs());
    }
    layout_from(104, VertexStepMode::Vertex, attrs)
}

/// The path sprite layout's attributes.
pub open spec fn path_sprite_layout_attrs() -> Seq<VertexAttribute> {
    seq![attr(VertexFormat::Float32x2, 0, 0), attr(VertexFormat::Float32x2, 8, 1)]
}

/// The instanced layout of the path sprite (copy) pipeline: the copy
/// rectangle's origin and size.
pub fn path_sprite_vertex_buffer_layout() -> (r: VertexBufferLayoutDesc)
    ensures
        r.array_stride == 16,
        r.step_mode == VertexStepMode::Instance,
        r.attributes@ == path_sprite_layout_attrs(),
{
    let mut attrs: Vec<VertexAttribute> = Vec::new();
    push_attr(&mut attrs, VertexFormat::Float32x2, 0, 0);
    push_attr(&mut attrs, VertexFormat::Float32x2, 8, 1);
    proof {
        assert(attrs@ =~= path_sprite_layout_attrs());
    }
    layout_from(16, VertexStepMode::Instance, attrs)
}


/// The building blocks' serialized lengths.
#[verifier::rlimit(100)]
proof fn lemma_block_lens(
    c: Hsla,
    bg: Background,
    b: Bounds,
    k: crate::scene::Corners,
    e: crate::scene::Edges,
    t: TransformationMatrix,
)
    ensures
        hsla_bytes(c).len() == 16,
        bounds_bytes(b).len() == 16,
        corners_bytes(k).len() == 16,
        edges_bytes(e).len() == 16,
        transformation_bytes(t).len() == 32,
        background_bytes(bg).len() == 72,
{
    reveal(hsla_bytes);
    reveal(bounds_bytes);
    reveal(corners_bytes);
    reveal(edges_bytes);
    reveal(transformation_bytes);
    reveal(background_bytes);
    assert(hsla_bytes(bg.solid).len() == 16);
    assert(hsla_bytes(bg.stop0.color).len() == 16);
    assert(hsla_bytes(bg.stop1.color).len() == 16);
}

/// Law: each primitive's serialized instance is exactly as long as the
/// matching vertex-buffer layout's stride, so instance `k` starts at byte
/// `k * array_stride` and every attribute offset lands inside its
/// instance.
pub proof fn lemma_instance_sizes_match_strides(
    q: Quad,
    s: Shadow,
    u: Underline,
    m: MonochromeSprite,
    p: PolychromeSprite,
    v: PathVertex,
    color: Background,
    clip: Bounds,
    b: Bounds,
)
    ensures
        quad_bytes(q).len() == 152,
        shadow_bytes(s).len() == 80,
        underline_bytes(u).len() == 64,
        mono_sprite_bytes(m).len() == 96,
        poly_sprite_bytes(p).len() == 80,
        path_vertex_bytes(v, color, clip).len() == 104,
        path_sprite_bytes(b).len() == 16,
{
    assert(quad_bytes(q).len() == 152) by {
        reveal(quad_bytes);
        lemma_block_lens(
            q.border_color,
            q.background,
            q.bounds,
            q.corner_radii,
            q.border_widths,
            m.transformation,
        );
        lemma_block_lens(
            q.border_color,
            q.background,
            q.content_mask,
            q.corner_radii,
            q.border_widths,
            m.transformation,
        );
    }
    assert(shadow_bytes(s).len() == 80) by {
        reveal(shadow_bytes);
        lemma_block_lens(
            s.color,
            q.background,
            s.bounds,
            s.corner_radii,
            q.border_widths,
            m.transformation,
        );
        lemma_block_lens(
            s.color,
            q.background,
            s.content_mask,
            s.corner_radii,
            q.border_widths,
            m.transformation,
        );
    }
    assert(underline_bytes(u).len() == 64) by {
        reveal(underline_bytes);
        lemma_block_lens(
            u.color,
            q.background,
            u.bounds,
            q.corner_radii,
            q.border_widths,
            m.transformation,
        );
        lemma_block_lens(
            u.color,
            q.background,
            u.content_mask,
            q.corner_radii,
            q.border_widths,
            m.transformation,
        );
    }
    assert(mono_sprite_bytes(m).len() == 96) by {
        reveal(mono_sprite_bytes);
        reveal(tile_bytes);
        lemma_block_lens(
            m.color,
            q.background,
            m.bounds,
            q.corner_radii,
            q.border_widths,
            m.transformation,
        );
        lemma_block_lens(
            m.color,
            q.background,
            m.content_mask,
            q.corner_radii,
            q.border_widths,
            m.transformation,
        );
        lemma_block_lens(
            m.color,
            q.background,
            m.tile.bounds,
            q.corner_radii,
            q.border_widths,
            m.transformation,
        );
    }
    assert(poly_sprite_bytes(p).len() == 80) by {
        reveal(poly_sprite_bytes);
        reveal(tile_bytes);
        lemma_block_lens(
            q.border_color,
            q.background,
            p.bounds,
            p.corner_radii,
            q.border_widths,
            m.transformation,
        );
        lemma_block_lens(
            q.border_color,
            q.background,
            p.content_mask,
            p.corner_radii,
            q.border_widths,
            m.transformation,
        );
        lemma_block_lens(
            q.border_color,
            q.background,
            p.tile.bounds,
            p.corner_radii,
            q.border_widths,
            m.transformation,
        );
    }
    assert(path_vertex_bytes(v, color, clip).len() == 104) by {
        reveal(path_vertex_bytes);
        lemma_block_lens(
            q.border_color,
            color,
            clip,
            q.corner_radii,
            q.border_widths,
            m.transformation,
        );
    }
    assert(path_sprite_bytes(b).len() == 16) by {
        reveal(path_sprite_bytes);
        lemma_block_lens(
            q.border_color,
            color,
            b,
            q.corner_radii,
            q.border_widths,
            m.transformation,
        );
    }
}

} // verus!
