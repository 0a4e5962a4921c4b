use gpui_web::atlas::{AtlasKey, AtlasTextureKind};
use gpui_web::geometry::{Bounds, Point, Size};
use gpui_web::pack::{
    quad_vertex_buffer_layout, path_rasterization_vertex_buffer_layout,
    path_sprite_vertex_buffer_layout, poly_sprite_vertex_buffer_layout,
    mono_sprite_vertex_buffer_layout, shadow_vertex_buffer_layout,
    underline_vertex_buffer_layout, VertexFormat, VertexStepMode,
};
use gpui_web::render::{
    on_surface_error, pipeline_blend, pipeline_sample_count, pipeline_topology,
    select_path_sample_count, select_surface_format, BlendFactorKind, LoadAction, PassTarget,
    PipelineKind, RenderCommand, Renderer, SurfaceAction, SurfaceErrorKind, TopologyKind,
};
use gpui_web::scene::{
    Background, Corners, Edges, Hsla, LinearColorStop, Path, PathVertex, PrimitiveBatch, Quad,
    Scene, Shadow, Underline,
};

fn bounds(x: i32, y: i32, w: i32, h: i32) -> Bounds {
    Bounds { origin: Point { x, y }, size: Size { width: w, height: h } }
}

fn color(h: u32) -> Hsla {
    Hsla { h, s: 1, l: 2, a: 3 }
}

fn background(tag: u32) -> Background {
    Background {
        tag,
        color_space: 0,
        solid: color(5),
        gradient_angle_or_pattern_height: 0,
        stop0: LinearColorStop { color: color(6), percentage: 0 },
        stop1: LinearColorStop { color: color(7), percentage: 100 },
    }
}

fn quad(x: i32) -> Quad {
    Quad {
        bounds: bounds(x, 2, 3, 4),
        content_mask: bounds(0, 0, 800, 600),
        background: background(1),
        border_color: color(8),
        corner_radii: Corners { top_left: 1, top_right: 2, bottom_right: 3, bottom_left: 4 },
        border_widths: Edges { top: 1, right: 1, bottom: 1, left: 1 },
    }
}

fn shadow() -> Shadow {
    Shadow {
        blur_radius: 6,
        bounds: bounds(10, 10, 50, 50),
        corner_radii: Corners { top_left: 0, top_right: 0, bottom_right: 0, bottom_left: 0 },
        content_mask: bounds(0, 0, 800, 600),
        color: color(9),
    }
}

fn underline() -> Underline {
    Underline {
        bounds: bounds(5, 90, 100, 2),
        content_mask: bounds(0, 0, 800, 600),
        color: color(10),
        thickness: 2,
        wavy: 1,
    }
}

fn path(order: u32, x: i32) -> Path {
    Path {
        order,
        bounds: bounds(x, 20, 40, 40),
        content_mask: bounds(0, 0, 800, 600),
        vertices: vec![
            PathVertex { xy_position: Point { x, y: 20 }, st_position_x: 0, st_position_y: 0 },
            PathVertex { xy_position: Point { x: x + 40, y: 20 }, st_position_x: 1, st_position_y: 0 },
            PathVertex { xy_position: Point { x, y: 60 }, st_position_x: 0, st_position_y: 1 },
        ],
        color: background(0),
    }
}

fn frame_draws(commands: &[RenderCommand]) -> Vec<&gpui_web::render::DrawPass> {
    commands
        .iter()
        .filter_map(|c| match c {
            RenderCommand::Draw(p) if p.target == PassTarget::Frame => Some(p),
            _ => None,
        })
        .collect()
}

#[test]
fn test_paint_order_preserved() {
    // Three batches in paint order produce three frame passes in the same
    // order, the first clearing the frame, the rest keeping it.
    let mut renderer = Renderer::new(Size::new(800, 600), false, 4);
    let scene = Scene {
        batches: vec![
            PrimitiveBatch::Quads(vec![quad(1), quad(2)]),
            PrimitiveBatch::Underlines(vec![underline()]),
            PrimitiveBatch::Shadows(vec![shadow()]),
        ],
    };
    let commands = renderer.draw(&scene);
    let draws = frame_draws(&commands);
    assert_eq!(draws.len(), 3);
    let d0 = draws[0].draw.as_ref().unwrap();
    let d1 = draws[1].draw.as_ref().unwrap();
    let d2 = draws[2].draw.as_ref().unwrap();
    assert_eq!(d0.pipeline, PipelineKind::Quads);
    assert_eq!(d1.pipeline, PipelineKind::Underlines);
    assert_eq!(d2.pipeline, PipelineKind::Shadows);
    assert_eq!(draws[0].load, LoadAction::ClearTransparent);
    assert_eq!(draws[1].load, LoadAction::Keep);
    assert_eq!(draws[2].load, LoadAction::Keep);
    assert_eq!(d0.instance_count, 2);
    assert_eq!(d0.vertex_count, 4);
}

#[test]
fn test_uploads_precede_all_passes() {
    let mut renderer = Renderer::new(Size::new(800, 600), false, 4);
    let key = AtlasKey { fingerprint: 5, kind: AtlasTextureKind::Monochrome };
    renderer
        .sprite_atlas_mut()
        .get_or_insert_with(&key, || Ok::<_, ()>(Some((Size::new(8, 8), vec![7u8; 64]))))
        .unwrap();
    let scene = Scene { batches: vec![PrimitiveBatch::Quads(vec![quad(1)])] };
    let commands = renderer.draw(&scene);
    assert!(matches!(commands[0], RenderCommand::UploadTexture(_)));
    let first_pass = commands.iter().position(|c| matches!(c, RenderCommand::Draw(_))).unwrap();
    let last_upload = commands
        .iter()
        .rposition(|c| matches!(c, RenderCommand::UploadTexture(_)))
        .unwrap();
    assert!(last_upload < first_pass);
}

#[test]
fn test_quad_instance_bytes_layout() {
    let mut renderer = Renderer::new(Size::new(800, 600), false, 4);
    let scene = Scene { batches: vec![PrimitiveBatch::Quads(vec![quad(1)])] };
    let commands = renderer.draw(&scene);
    let draws = frame_draws(&commands);
    let d = draws[0].draw.as_ref().unwrap();
    assert_eq!(d.instance_bytes.len(), 152);
    // bounds.origin at offset 0
    assert_eq!(&d.instance_bytes[0..4], &1i32.to_le_bytes());
    assert_eq!(&d.instance_bytes[4..8], &2i32.to_le_bytes());
    // bounds.size
    assert_eq!(&d.instance_bytes[8..12], &3i32.to_le_bytes());
    assert_eq!(&d.instance_bytes[12..16], &4i32.to_le_bytes());
    // background tag at offset 32
    assert_eq!(&d.instance_bytes[32..36], &1u32.to_le_bytes());
    // border color at offset 104: h channel
    assert_eq!(&d.instance_bytes[104..108], &8u32.to_le_bytes());
    // corner radii at offset 120
    assert_eq!(&d.instance_bytes[120..124], &1i32.to_le_bytes());
    // border widths at offset 136..152
    assert_eq!(&d.instance_bytes[148..152], &1i32.to_le_bytes());
}

#[test]
fn test_shared_order_paths_merge_into_one_copy_call() {
    // Two paths with the same paint order in one batch produce exactly one
    // destination-copy draw call with each path's own bounds as separate
    // instances.
    let mut renderer = Renderer::new(Size::new(800, 600), false, 4);
    let scene = Scene { batches: vec![PrimitiveBatch::Paths(vec![path(3, 0), path(3, 100)])] };
    let commands = renderer.draw(&scene);

    let copy_draws: Vec<_> = commands
        .iter()
        .filter_map(|c| match c {
            RenderCommand::Draw(p) if p.target == PassTarget::Frame => Some(p),
            _ => None,
        })
        .collect();
    assert_eq!(copy_draws.len(), 1);
    let d = copy_draws[0].draw.as_ref().unwrap();
    assert_eq!(d.pipeline, PipelineKind::PathSprites);
    assert_eq!(d.instance_count, 2);
    assert_eq!(d.instance_bytes.len(), 32);
    // first instance: the first path's clipped bounds
    assert_eq!(&d.instance_bytes[0..4], &0i32.to_le_bytes());
    // second instance: the second path's clipped bounds
    assert_eq!(&d.instance_bytes[16..20], &100i32.to_le_bytes());
}

#[test]
fn test_mixed_order_paths_merge_into_union() {
    // Paths of differing paint order within one batch collapse to a
    // single instance covering the union of their clipped bounds.
    let mut renderer = Renderer::new(Size::new(800, 600), false, 4);
    let scene = Scene { batches: vec![PrimitiveBatch::Paths(vec![path(1, 0), path(2, 100)])] };
    let commands = renderer.draw(&scene);
    let draws = frame_draws(&commands);
    assert_eq!(draws.len(), 1);
    let d = draws[0].draw.as_ref().unwrap();
    assert_eq!(d.instance_count, 1);
    assert_eq!(d.instance_bytes.len(), 16);
    // union spans x in [0, 140): origin 0, width 140
    assert_eq!(&d.instance_bytes[0..4], &0i32.to_le_bytes());
    assert_eq!(&d.instance_bytes[8..12], &140i32.to_le_bytes());
}

#[test]
fn test_interleaved_path_batches_copy_separately() {
    // Two path batches of differing paint order interleaved with a quad
    // batch produce two separate copy draw calls, in paint order.
    let mut renderer = Renderer::new(Size::new(800, 600), false, 4);
    let scene = Scene {
        batches: vec![
            PrimitiveBatch::Paths(vec![path(1, 0)]),
            PrimitiveBatch::Quads(vec![quad(1)]),
            PrimitiveBatch::Paths(vec![path(5, 100)]),
        ],
    };
    let commands = renderer.draw(&scene);
    let draws = frame_draws(&commands);
    assert_eq!(draws.len(), 3);
    assert_eq!(draws[0].draw.as_ref().unwrap().pipeline, PipelineKind::PathSprites);
    assert_eq!(draws[1].draw.as_ref().unwrap().pipeline, PipelineKind::Quads);
    assert_eq!(draws[2].draw.as_ref().unwrap().pipeline, PipelineKind::PathSprites);
    // each path batch also rasterizes into the intermediate first
    let raster_count = commands
        .iter()
        .filter(|c| {
            matches!(c, RenderCommand::Draw(p) if p.target == PassTarget::PathIntermediate)
        })
        .count();
    assert_eq!(raster_count, 2);
}

#[test]
fn test_resize_recreates_intermediate() {
    // A viewport change invalidates the path intermediate target; the next
    // path draw creates one at the new size, never reusing the stale one.
    let mut renderer = Renderer::new(Size::new(800, 600), false, 4);
    let scene = Scene { batches: vec![PrimitiveBatch::Paths(vec![path(1, 0)])] };

    let commands = renderer.draw(&scene);
    let creates: Vec<_> = commands
        .iter()
        .filter_map(|c| match c {
            RenderCommand::CreatePathIntermediate { size, sample_count } => {
                Some((*size, *sample_count))
            },
            _ => None,
        })
        .collect();
    assert_eq!(creates, vec![(Size::new(800, 600), 4)]);

    // without a resize the intermediate target is kept
    let commands = renderer.draw(&scene);
    assert!(!commands.iter().any(|c| matches!(c, RenderCommand::CreatePathIntermediate { .. })));

    renderer.update_drawable_size(Size::new(1024, 768));
    let commands = renderer.draw(&scene);
    let creates: Vec<_> = commands
        .iter()
        .filter_map(|c| match c {
            RenderCommand::CreatePathIntermediate { size, sample_count } => {
                Some((*size, *sample_count))
            },
            _ => None,
        })
        .collect();
    assert_eq!(creates, vec![(Size::new(1024, 768), 4)]);
}

#[test]
fn test_empty_path_batch_is_skipped() {
    let mut renderer = Renderer::new(Size::new(800, 600), false, 4);
    let scene = Scene {
        batches: vec![
            PrimitiveBatch::Paths(vec![]),
            PrimitiveBatch::Quads(vec![quad(1)]),
        ],
    };
    let commands = renderer.draw(&scene);
    // the empty path batch contributes nothing; the quad batch is first
    // to touch the frame and clears it
    let draws = frame_draws(&commands);
    assert_eq!(draws.len(), 1);
    assert_eq!(draws[0].load, LoadAction::ClearTransparent);
}

#[test]
fn test_surfaces_batch_draws_nothing() {
    let mut renderer = Renderer::new(Size::new(800, 600), false, 4);
    let scene = Scene { batches: vec![PrimitiveBatch::Surfaces(2)] };
    let commands = renderer.draw(&scene);
    let draws = frame_draws(&commands);
    assert_eq!(draws.len(), 1);
    assert!(draws[0].draw.is_none());
    assert_eq!(draws[0].load, LoadAction::ClearTransparent);
}

#[test]
fn test_surface_error_recovery() {
    assert_eq!(on_surface_error(SurfaceErrorKind::Lost), SurfaceAction::ReconfigureAndSkip);
    assert_eq!(on_surface_error(SurfaceErrorKind::Outdated), SurfaceAction::ReconfigureAndSkip);
    assert_eq!(on_surface_error(SurfaceErrorKind::Timeout), SurfaceAction::SkipFrame);
    assert_eq!(on_surface_error(SurfaceErrorKind::OutOfMemory), SurfaceAction::SkipFrame);
    assert_eq!(on_surface_error(SurfaceErrorKind::Other), SurfaceAction::SkipFrame);
}

#[test]
fn test_sample_count_descent() {
    assert_eq!(select_path_sample_count(|_c| true), 4);
    assert_eq!(select_path_sample_count(|c| c == 2), 2);
    assert_eq!(select_path_sample_count(|_c| false), 1);
}

#[test]
fn test_gpu_specs() {
    let renderer = Renderer::new(Size::new(800, 600), false, 4);
    let specs = renderer.gpu_specs();
    assert!(!specs.is_software_emulated);
    assert_eq!(specs.device_name, "WebGPU");
    assert_eq!(specs.driver_name, "Browser");
    assert_eq!(specs.driver_info, "WebGPU API");
}

#[test]
fn test_vertex_buffer_layouts() {
    let quad_layout = quad_vertex_buffer_layout();
    assert_eq!(quad_layout.array_stride, 152);
    assert_eq!(quad_layout.step_mode, VertexStepMode::Instance);
    assert_eq!(quad_layout.attributes.len(), 12);
    assert_eq!(quad_layout.attributes[4].format, VertexFormat::Uint32x2);
    assert_eq!(quad_layout.attributes[4].offset, 32);
    assert_eq!(quad_layout.attributes[11].offset, 136);

    let shadow_layout = shadow_vertex_buffer_layout();
    assert_eq!(shadow_layout.array_stride, 80);
    assert_eq!(shadow_layout.attributes.len(), 7);

    let underline_layout = underline_vertex_buffer_layout();
    assert_eq!(underline_layout.array_stride, 64);
    assert_eq!(underline_layout.attributes.len(), 6);

    let mono_layout = mono_sprite_vertex_buffer_layout();
    assert_eq!(mono_layout.array_stride, 96);
    assert_eq!(mono_layout.attributes[5].format, VertexFormat::Sint32x2);
    assert_eq!(mono_layout.attributes[5].offset, 48);

    let poly_layout = poly_sprite_vertex_buffer_layout();
    assert_eq!(poly_layout.array_stride, 80);
    assert_eq!(poly_layout.attributes[0].format, VertexFormat::Uint32x2);

    let raster_layout = path_rasterization_vertex_buffer_layout();
    assert_eq!(raster_layout.array_stride, 104);
    assert_eq!(raster_layout.step_mode, VertexStepMode::Vertex);
    assert_eq!(raster_layout.attributes[7].offset, 88);

    let sprite_layout = path_sprite_vertex_buffer_layout();
    assert_eq!(sprite_layout.array_stride, 16);
    assert_eq!(sprite_layout.attributes.len(), 2);
}

#[test]
fn test_path_rasterization_pass_shape() {
    let mut renderer = Renderer::new(Size::new(800, 600), false, 2);
    let scene = Scene { batches: vec![PrimitiveBatch::Paths(vec![path(1, 0)])] };
    let commands = renderer.draw(&scene);
    let raster = commands
        .iter()
        .find_map(|c| match c {
            RenderCommand::Draw(p) if p.target == PassTarget::PathIntermediate => Some(p),
            _ => None,
        })
        .unwrap();
    assert_eq!(raster.load, LoadAction::ClearTransparent);
    let d = raster.draw.as_ref().unwrap();
    assert_eq!(d.pipeline, PipelineKind::PathRasterization);
    // three vertices, 104 bytes each
    assert_eq!(d.instance_bytes.len(), 312);
    assert_eq!(d.vertex_count, 3);
    assert_eq!(d.instance_count, 1);
}

#[test]
fn test_surface_format_preference() {
    // first non-sRGB format wins; all-sRGB falls back to the first
    assert_eq!(select_surface_format(&vec![true, false, false]), 1);
    assert_eq!(select_surface_format(&vec![false, true]), 0);
    assert_eq!(select_surface_format(&vec![true, true]), 0);
}

#[test]
fn test_pipeline_blend_states() {
    // The path copy pass blends premultiplied color: One as the source
    // factor on both channels, accumulating alpha with One/One. The
    // rasterization pass accumulates with One/OneMinusSrcAlpha on both
    // channels. Everything else composites straight-alpha colors.
    let copy = pipeline_blend(PipelineKind::PathSprites);
    assert_eq!(copy.color.src_factor, BlendFactorKind::One);
    assert_eq!(copy.color.dst_factor, BlendFactorKind::OneMinusSrcAlpha);
    assert_eq!(copy.alpha.src_factor, BlendFactorKind::One);
    assert_eq!(copy.alpha.dst_factor, BlendFactorKind::One);

    let raster = pipeline_blend(PipelineKind::PathRasterization);
    assert_eq!(raster.color.src_factor, BlendFactorKind::One);
    assert_eq!(raster.color.dst_factor, BlendFactorKind::OneMinusSrcAlpha);
    assert_eq!(raster.alpha.src_factor, BlendFactorKind::One);
    assert_eq!(raster.alpha.dst_factor, BlendFactorKind::OneMinusSrcAlpha);

    let quads = pipeline_blend(PipelineKind::Quads);
    assert_eq!(quads.color.src_factor, BlendFactorKind::SrcAlpha);
    assert_eq!(quads.color.dst_factor, BlendFactorKind::OneMinusSrcAlpha);
    assert_eq!(quads.alpha.src_factor, BlendFactorKind::One);
    assert_eq!(quads.alpha.dst_factor, BlendFactorKind::OneMinusSrcAlpha);
}

#[test]
fn test_pipeline_topology_and_sampling() {
    assert_eq!(pipeline_topology(PipelineKind::PathRasterization), TopologyKind::TriangleList);
    assert_eq!(pipeline_topology(PipelineKind::Quads), TopologyKind::TriangleStrip);
    assert_eq!(pipeline_topology(PipelineKind::PathSprites), TopologyKind::TriangleStrip);
    // only rasterization is multisampled
    assert_eq!(pipeline_sample_count(PipelineKind::PathRasterization, 4), 4);
    assert_eq!(pipeline_sample_count(PipelineKind::Quads, 4), 1);
    assert_eq!(pipeline_sample_count(PipelineKind::PathSprites, 4), 1);
}
