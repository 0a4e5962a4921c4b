//! The frame renderer: turns one scene — an ordered list of primitive
//! batches — into an ordered list of GPU commands.
//!
//! The commands say everything the GPU shell needs: which pipeline to bind,
//! which texture, the packed instance bytes, the clear-then-accumulate load
//! rule for the framebuffer, when to (re)create the path intermediate
//! target, and which pixel uploads must land before any pass reads the
//! atlas. Paint order is preserved: frame passes come out in exactly the
//! order of the batches that produce them.

use vstd::prelude::*;
use crate::atlas::{AtlasTextureId, AtlasTile, PendingUpload, TextureAtlas};
use crate::geometry::{Bounds, Size, spec_intersect, spec_union};
use crate::pack::{
    mono_sprites_bytes, mono_sprites_bytes_spec, path_sprites_buffer, path_sprites_bytes_spec,
    paths_vertex_buffer, paths_vertices_bytes, poly_sprites_bytes, poly_sprites_bytes_spec,
    quads_bytes, quads_bytes_spec, shadows_bytes, shadows_bytes_spec, underlines_bytes,
    underlines_bytes_spec,
};
use crate::scene::{Path, PrimitiveBatch, Scene};

verus! {

/// One of the seven pipeline configurations.
#[derive(Clone, Copy, Debug, PartialEq, Eq, Structural)]
pub enum PipelineKind {
    Quads,
    Shadows,
    Underlines,
    MonochromeSprites,
    PolychromeSprites,
    PathRasterization,
    PathSprites,
}

/// The texture bound for a pass: the 1 by 1 dummy for geometry without a
/// texture dependency, an atlas texture, or the path intermediate target.
#[derive(Clone, Copy, Debug, PartialEq, Eq, Structural)]
pub enum TextureBinding {
    Dummy,
    AtlasTexture(AtlasTextureId),
    PathIntermediate,
}

/// How a pass treats its color target: clear to transparent (the first
/// touch each frame) or keep what is there.
#[derive(Clone, Copy, Debug, PartialEq, Eq, Structural)]
pub enum LoadAction {
    ClearTransparent,
    Keep,
}

/// Which color target a pass renders to.
#[derive(Clone, Copy, Debug, PartialEq, Eq, Structural)]
pub enum PassTarget {
    Frame,
    PathIntermediate,
}

/// The draw call of one pass, if it draws at all.
#[derive(Clone, Debug, PartialEq)]
pub struct PipelineDraw {
    pub pipeline: PipelineKind,
    pub texture: TextureBinding,
    pub instance_bytes: Vec<u8>,
    pub vertex_count: usize,
    pub instance_count: usize,
}

/// One render pass: target, load action, and at most one draw call.
#[derive(Clone, Debug, PartialEq)]
pub struct DrawPass {
    pub target: PassTarget,
    pub load: LoadAction,
    pub draw: Option<PipelineDraw>,
}

/// One step of a frame, in execution order.
#[derive(Clone, Debug, PartialEq)]
pub enum RenderCommand {
    /// Write pixel bytes into an atlas texture region.
    UploadTexture(PendingUpload),
    /// (Re)create the offscreen path target at this size.
    CreatePathIntermediate { size: Size, sample_count: u32 },
    /// Run one render pass.
    Draw(DrawPass),
}

/// The ghost mirror of a draw call, with the bytes as a sequence.
pub ghost struct DrawModel {
    pub pipeline: PipelineKind,
    pub texture: TextureBinding,
    pub bytes: Seq<u8>,
    pub vertex_count: int,
    pub instance_count: int,
}

/// The ghost mirror of a command.
pub ghost enum CmdModel {
    Upload { id: AtlasTextureId, bounds: Bounds, data: Seq<u8> },
    CreateIntermediate { size: Size, sample_count: u32 },
    Pass { target: PassTarget, load: LoadAction, draw: Option<DrawModel> },
}

pub open spec fn cmd_model(c: RenderCommand) -> CmdModel {
    match c {
        RenderCommand::UploadTexture(u) => CmdModel::Upload {
            id: u.id,
            bounds: u.bounds,
            data: u.data@,
        },
        RenderCommand::CreatePathIntermediate { size, sample_count } => CmdModel::CreateIntermediate {
            size,
            sample_count,
        },
        RenderCommand::Draw(p) => CmdModel::Pass {
            target: p.target,
            load: p.load,
            draw: match p.draw {
                None => None,
                Some(d) => Some(
                    DrawModel {
                        pipeline: d.pipeline,
                        texture: d.texture,
                        bytes: d.instance_bytes@,
                        vertex_count: d.vertex_count as int,
                        instance_count: d.instance_count as int,
                    },
                ),
            },
        },
    }
}

pub open spec fn cmds_models(s: Seq<RenderCommand>) -> Seq<CmdModel>
    decreases s.len(),
{
    if s.len() == 0 {
        Seq::empty()
    } else {
        cmds_models(s.drop_last()).push(cmd_model(s.last()))
    }
}

proof fn lemma_cmds_models_push(s: Seq<RenderCommand>, c: RenderCommand)
    ensures
        cmds_models(s.push(c)) == cmds_models(s).push(cmd_model(c)),
{
    assert(s.push(c).drop_last() =~= s);
}

/// The upload commands a frame starts with, in queue order.
pub open spec fn upload_models(ups: Seq<PendingUpload>) -> Seq<CmdModel>
    decreases ups.len(),
{
    if ups.len() == 0 {
        Seq::empty()
    } else {
        upload_models(ups.drop_last()).push(
            CmdModel::Upload {
                id: ups.last().id,
                bounds: ups.last().bounds,
                data: ups.last().data@,
            },
        )
    }
}

/// The per-frame framebuffer state the batch walk threads along: whether
/// the frame target is still untouched, and the current intermediate
/// texture extent, if one exists.
pub ghost struct FrameState {
    pub first: bool,
    pub inter: Option<Size>,
}

pub open spec fn load_of(first: bool) -> LoadAction {
    if first {
        LoadAction::ClearTransparent
    } else {
        LoadAction::Keep
    }
}

/// A path's bounds clipped to its content mask.
pub open spec fn clipped(p: Path) -> Bounds {
    spec_intersect(p.bounds, p.content_mask)
}

/// The clipped bounds of each path, in order.
pub open spec fn clipped_all(paths: Seq<Path>) -> Seq<Bounds>
    decreases paths.len(),
{
    if paths.len() == 0 {
        Seq::empty()
    } else {
        clipped_all(paths.drop_last()).push(clipped(paths.last()))
    }
}

/// The union of all the paths' clipped bounds, folded left.
pub open spec fn union_clipped(paths: Seq<Path>) -> Bounds
    decreases paths.len(),
{
    if paths.len() <= 1 {
        clipped(paths[0])
    } else {
        spec_union(union_clipped(paths.drop_last()), clipped(paths.last()))
    }
}

/// The copy-pass instances of one path batch: when the whole batch shares
/// one paint order, each path copies its own clipped bounds as a separate
/// instance of one draw call; otherwise one instance covering the union of
/// the clipped bounds.
pub open spec fn path_sprite_instances(paths: Seq<Path>) -> Seq<Bounds> {
    if paths.last().order == paths[0].order {
        clipped_all(paths)
    } else {
        seq![union_clipped(paths)]
    }
}

/// The commands of one non-empty path batch: create the intermediate
/// target if none exists, rasterize the batch's triangles into it (cleared
/// first; skipped entirely when the batch has no vertices), then copy the
/// filled regions onto the frame with one instanced draw.
pub open spec fn path_batch_models(
    paths: Seq<Path>,
    load: LoadAction,
    inter: Option<Size>,
    viewport: Size,
    sample_count: u32,
) -> Seq<CmdModel> {
    let create = if inter is Some {
        Seq::<CmdModel>::empty()
    } else {
        seq![CmdModel::CreateIntermediate { size: viewport, sample_count }]
    };
    let vbytes = paths_vertices_bytes(paths);
    let raster = if vbytes.len() == 0 {
        Seq::<CmdModel>::empty()
    } else {
        seq![
            CmdModel::Pass {
                target: PassTarget::PathIntermediate,
                load: LoadAction::ClearTransparent,
                draw: Some(
                    DrawModel {
                        pipeline: PipelineKind::PathRasterization,
                        texture: TextureBinding::Dummy,
                        bytes: vbytes,
                        vertex_count: vbytes.len() as int / 104,
                        instance_count: 1,
                    },
                ),
            },
        ]
    };
    let sprites = path_sprite_instances(paths);
    let copy = seq![
        CmdModel::Pass {
            target: PassTarget::Frame,
            load,
            draw: Some(
                DrawModel {
                    pipeline: PipelineKind::PathSprites,
                    texture: TextureBinding::PathIntermediate,
                    bytes: path_sprites_bytes_spec(sprites),
                    vertex_count: 4,
                    instance_count: sprites.len() as int,
                },
            ),
        },
    ];
    create + raster + copy
}

/// The frame pass of one non-path batch: always one pass (it clears or
/// keeps the target even when it has nothing to draw), with one instanced
/// draw when the batch is non-empty.
pub open spec fn simple_pass_model(
    pipeline: PipelineKind,
    texture: TextureBinding,
    bytes: Seq<u8>,
    count: int,
    load: LoadAction,
) -> CmdModel {
    CmdModel::Pass {
        target: PassTarget::Frame,
        load,
        draw: if count == 0 {
            None
        } else {
            Some(
                DrawModel { pipeline, texture, bytes, vertex_count: 4, instance_count: count },
            )
        },
    }
}

/// The commands one batch contributes.
pub open spec fn batch_models(
    b: PrimitiveBatch,
    st: FrameState,
    viewport: Size,
    sample_count: u32,
) -> Seq<CmdModel> {
    match b {
        PrimitiveBatch::Quads(v) => seq![
            simple_pass_model(
                PipelineKind::Quads,
                TextureBinding::Dummy,
                quads_bytes_spec(v@),
                v@.len() as int,
                load_of(st.first),
            ),
        ],
        PrimitiveBatch::Shadows(v) => seq![
            simple_pass_model(
                PipelineKind::Shadows,
                TextureBinding::Dummy,
                shadows_bytes_spec(v@),
                v@.len() as int,
                load_of(st.first),
            ),
        ],
        PrimitiveBatch::Underlines(v) => seq![
            simple_pass_model(
                PipelineKind::Underlines,
                TextureBinding::Dummy,
                underlines_bytes_spec(v@),
                v@.len() as int,
                load_of(st.first),
            ),
        ],
        PrimitiveBatch::MonochromeSprites { texture_id, sprites } => seq![
            simple_pass_model(
                PipelineKind::MonochromeSprites,
                TextureBinding::AtlasTexture(texture_id),
                mono_sprites_bytes_spec(sprites@),
                sprites@.len() as int,
                load_of(st.first),
            ),
        ],
        PrimitiveBatch::PolychromeSprites { texture_id, sprites } => seq![
            simple_pass_model(
                PipelineKind::PolychromeSprites,
                TextureBinding::AtlasTexture(texture_id),
                poly_sprites_bytes_spec(sprites@),
                sprites@.len() as int,
                load_of(st.first),
            ),
        ],
        PrimitiveBatch::Surfaces(_) => seq![
            (CmdModel::Pass { target: PassTarget::Frame, load: load_of(st.first), draw: None }),
        ],
        PrimitiveBatch::Paths(v) => if v@.len() == 0 {
            Seq::empty()
        } else {
            path_batch_models(v@, load_of(st.first), st.inter, viewport, sample_count)
        },
    }
}

/// How one batch advances the frame state: a skipped (empty path) batch
/// changes nothing; a drawn path batch pins the intermediate to the
/// viewport; every drawn batch takes the first touch of the frame.
pub open spec fn state_after(b: PrimitiveBatch, st: FrameState, viewport: Size) -> FrameState {
    match b {
        PrimitiveBatch::Paths(v) => if v@.len() == 0 {
            st
        } else {
            FrameState {
                first: false,
                inter: if st.inter is Some {
                    st.inter
                } else {
                    Some(viewport)
                },
            }
        },
        _ => FrameState { first: false, ..st },
    }
}

/// The commands of a whole frame's batches, walked in paint order.
pub open spec fn batches_models(
    bs: Seq<PrimitiveBatch>,
    st: FrameState,
    viewport: Size,
    sample_count: u32,
) -> Seq<CmdModel>
    decreases bs.len(),
{
    if bs.len() == 0 {
        Seq::empty()
    } else {
        batch_models(bs[0], st, viewport, sample_count) + batches_models(
            bs.drop_first(),
            state_after(bs[0], st, viewport),
            viewport,
            sample_count,
        )
    }
}

pub open spec fn state_after_all(bs: Seq<PrimitiveBatch>, st: FrameState, viewport: Size) -> FrameState
    decreases bs.len(),
{
    if bs.len() == 0 {
        st
    } else {
        state_after_all(bs.drop_first(), state_after(bs[0], st, viewport), viewport)
    }
}

proof fn lemma_batches_models_snoc(
    bs: Seq<PrimitiveBatch>,
    b: PrimitiveBatch,
    st: FrameState,
    viewport: Size,
    sample_count: u32,
)
    ensures
        batches_models(bs.push(b), st, viewport, sample_count) == batches_models(
            bs,
            st,
            viewport,
            sample_count,
        ) + batch_models(b, state_after_all(bs, st, viewport), viewport, sample_count),
        state_after_all(bs.push(b), st, viewport) == state_after(
            b,
            state_after_all(bs, st, viewport),
            viewport,
        ),
    decreases bs.len(),
{
    if bs.len() == 0 {
        let single = bs.push(b);
        assert(single[0] == b);
        assert(single.drop_first() =~= bs);
        assert(batches_models(bs, st, viewport, sample_count) =~= Seq::empty());
        let st1 = state_after(b, st, viewport);
        assert(batches_models(single.drop_first(), st1, viewport, sample_count) =~= Seq::empty());
        assert(state_after_all(single.drop_first(), st1, viewport) == st1);
        assert(batches_models(single, st, viewport, sample_count) == batch_models(
            b,
            st,
            viewport,
            sample_count,
        ) + batches_models(single.drop_first(), st1, viewport, sample_count));
        assert(batches_models(single, st, viewport, sample_count) =~= batch_models(
            b,
            st,
            viewport,
            sample_count,
        ));
    } else {
        assert(bs.push(b)[0] == bs[0]);
        assert(bs.push(b).drop_first() =~= bs.drop_first().push(b));
        lemma_batches_models_snoc(
            bs.drop_first(),
            b,
            state_after(bs[0], st, viewport),
            viewport,
            sample_count,
        );
    }
}

/// Every path of every path batch has well-formed rectangles.
pub open spec fn scene_wf(scene: Scene) -> bool {
    forall|i: int|
        0 <= i < scene.batches@.len() ==> match #[trigger] scene.batches@[i] {
            PrimitiveBatch::Paths(v) => forall|j: int|
                0 <= j < v@.len() ==> (#[trigger] v@[j]).wf(),
            _ => true,
        }
}

/// A blend factor, as the pipelines declare them.
#[derive(Clone, Copy, Debug, PartialEq, Eq, Structural)]
pub enum BlendFactorKind {
    One,
    SrcAlpha,
    OneMinusSrcAlpha,
}

/// One blend equation: `src_factor * source + dst_factor * destination`
/// (the operation is always addition).
#[derive(Clone, Copy, Debug, PartialEq, Eq, Structural)]
pub struct BlendComponentDesc {
    pub src_factor: BlendFactorKind,
    pub dst_factor: BlendFactorKind,
}

/// The color and alpha blend equations of one pipeline's target.
#[derive(Clone, Copy, Debug, PartialEq, Eq, Structural)]
pub struct BlendStateDesc {
    pub color: BlendComponentDesc,
    pub alpha: BlendComponentDesc,
}

/// How a pipeline assembles its vertices.
#[derive(Clone, Copy, Debug, PartialEq, Eq, Structural)]
pub enum TopologyKind {
    TriangleList,
    TriangleStrip,
}

/// The blend state each pipeline's target is built with. Most pipelines
/// composite straight-alpha colors. Path rasterization accumulates
/// premultiplied color into the intermediate target, so the path copy pass
/// must blend with `One` as its source factor — a straight-alpha blend
/// there would apply alpha twice.
pub open spec fn spec_pipeline_blend(kind: PipelineKind) -> BlendStateDesc {
    match kind {
        PipelineKind::PathRasterization => BlendStateDesc {
            color: BlendComponentDesc {
                src_factor: BlendFactorKind::One,
                dst_factor: BlendFactorKind::OneMinusSrcAlpha,
            },
            alpha: BlendComponentDesc {
                src_factor: BlendFactorKind::One,
                dst_factor: BlendFactorKind::OneMinusSrcAlpha,
            },
        },
        PipelineKind::PathSprites => BlendStateDesc {
            color: BlendComponentDesc {
                src_factor: BlendFactorKind::One,
                dst_factor: BlendFactorKind::OneMinusSrcAlpha,
            },
            alpha: BlendComponentDesc {
                src_factor: BlendFactorKind::One,
                dst_factor: BlendFactorKind::One,
            },
        },
        _ => BlendStateDesc {
            color: BlendComponentDesc {
                src_factor: BlendFactorKind::SrcAlpha,
                dst_factor: BlendFactorKind::OneMinusSrcAlpha,
            },
            alpha: BlendComponentDesc {
                src_factor: BlendFactorKind::One,
                dst_factor: BlendFactorKind::OneMinusSrcAlpha,
            },
        },
    }
}

/// The blend state a pipeline's target is built with; the shell reads
/// this the way it reads the vertex layouts.
pub fn pipeline_blend(kind: PipelineKind) -> (r: BlendStateDesc)
    ensures
        r == spec_pipeline_blend(kind),
{
    match kind {
        PipelineKind::PathRasterization => BlendStateDesc {
            color: BlendComponentDesc {
                src_factor: BlendFactorKind::One,
                dst_factor: BlendFactorKind::OneMinusSrcAlpha,
            },
            alpha: BlendComponentDesc {
                src_factor: BlendFactorKind::One,
                dst_factor: BlendFactorKind::OneMinusSrcAlpha,
            },
        },
        PipelineKind::PathSprites => BlendStateDesc {
            color: BlendComponentDesc {
                src_factor: BlendFactorKind::One,
                dst_factor: BlendFactorKind::OneMinusSrcAlpha,
            },
            alpha: BlendComponentDesc {
                src_factor: BlendFactorKind::One,
                dst_factor: BlendFactorKind::One,
            },
        },
        _ => BlendStateDesc {
            color: BlendComponentDesc {
                src_factor: BlendFactorKind::SrcAlpha,
                dst_factor: BlendFactorKind::OneMinusSrcAlpha,
            },
            alpha: BlendComponentDesc {
                src_factor: BlendFactorKind::One,
                dst_factor: BlendFactorKind::OneMinusSrcAlpha,
            },
        },
    }
}

/// Every pipeline draws instanced triangle strips, except path
/// rasterization, which draws the paths' triangle lists.
pub fn pipeline_topology(kind: PipelineKind) -> (r: TopologyKind)
    ensures
        r == (match kind {
            PipelineKind::PathRasterization => TopologyKind::TriangleList,
            _ => TopologyKind::TriangleStrip,
        }),
{
    match kind {
        PipelineKind::PathRasterization => TopologyKind::TriangleList,
        _ => TopologyKind::TriangleStrip,
    }
}

/// Only path rasterization is multisampled (at the probed count); every
/// other pipeline renders single-sampled.
pub fn pipeline_sample_count(kind: PipelineKind, path_sample_count: u32) -> (r: u32)
    ensures
        r == (match kind {
            PipelineKind::PathRasterization => path_sample_count,
            _ => 1u32,
        }),
{
    match kind {
        PipelineKind::PathRasterization => path_sample_count,
        _ => 1,
    }
}

/// Properties of the graphics device, reported to the toolkit.
#[derive(Clone, Debug, PartialEq)]
pub struct GpuSpecs {
    pub is_software_emulated: bool,
    pub device_name: String,
    pub driver_name: String,
    pub driver_info: String,
}

/// What an acquisition failure of the swap-chain image means for this
/// frame.
#[derive(Clone, Copy, Debug, PartialEq, Eq, Structural)]
pub enum SurfaceErrorKind {
    Lost,
    Outdated,
    Timeout,
    OutOfMemory,
    Other,
}

/// The recovery decision: a stale or lost surface is reconfigured and the
/// frame skipped; any other failure just drops the frame.
#[derive(Clone, Copy, Debug, PartialEq, Eq, Structural)]
pub enum SurfaceAction {
    ReconfigureAndSkip,
    SkipFrame,
}

/// Decide how to recover from a swap-chain acquisition failure. Never
/// retried inline, never a panic.
pub fn on_surface_error(kind: SurfaceErrorKind) -> (r: SurfaceAction)
    ensures
        r == (match kind {
            SurfaceErrorKind::Lost => SurfaceAction::ReconfigureAndSkip,
            SurfaceErrorKind::Outdated => SurfaceAction::ReconfigureAndSkip,
            _ => SurfaceAction::SkipFrame,
        }),
{
    match kind {
        SurfaceErrorKind::Lost => SurfaceAction::ReconfigureAndSkip,
        SurfaceErrorKind::Outdated => SurfaceAction::ReconfigureAndSkip,
        _ => SurfaceAction::SkipFrame,
    }
}

/// Pick the surface format: the first format that is not sRGB, falling
/// back to the first offered. The shaders emit sRGB-space colors directly,
/// so an sRGB framebuffer would gamma-correct twice.
pub fn select_surface_format(is_srgb: &Vec<bool>) -> (r: usize)
    requires
        is_srgb@.len() > 0,
    ensures
        r < is_srgb@.len(),
        (exists|i: int| 0 <= i < is_srgb@.len() && !is_srgb@[i]) ==> !is_srgb@[r as int]
            && (forall|i: int| 0 <= i < r ==> is_srgb@[i]),
        (forall|i: int| 0 <= i < is_srgb@.len() ==> is_srgb@[i]) ==> r == 0,
{
    let mut i: usize = 0;
    while i < is_srgb.len()
        invariant
            i <= is_srgb@.len(),
            forall|j: int| 0 <= j < i ==> is_srgb@[j],
        decreases is_srgb@.len() - i,
    {
        if !is_srgb[i] {
            return i;
        }
        i = i + 1;
    }
    0
}

/// Probe multisample support, descending through 4x and 2x before settling
/// on no multisampling. A one-time startup decision: the first supported
/// count wins and is kept for the renderer's lifetime.
pub fn select_path_sample_count<F: Fn(u32) -> bool>(probe: F) -> (r: u32)
    requires
        call_requires(probe, (4u32,)),
        call_requires(probe, (2u32,)),
    ensures
        r == 1 || r == 2 || r == 4,
        r == 4 ==> call_ensures(probe, (4u32,), true),
        r == 2 ==> call_ensures(probe, (2u32,), true) && call_ensures(probe, (4u32,), false),
        r == 1 ==> call_ensures(probe, (2u32,), false) && call_ensures(probe, (4u32,), false),
{
    if probe(4) {
        4
    } else if probe(2) {
        2
    } else {
        1
    }
}

fn load_action(first: bool) -> (r: LoadAction)
    ensures
        r == load_of(first),
{
    if first {
        LoadAction::ClearTransparent
    } else {
        LoadAction::Keep
    }
}

/// Compute the copy-pass instances of one non-empty path batch.
fn path_sprites(paths: &Vec<Path>) -> (r: Vec<Bounds>)
    requires
        paths@.len() > 0,
        forall|j: int| 0 <= j < paths@.len() ==> (#[trigger] paths@[j]).wf(),
    ensures
        r@ == path_sprite_instances(paths@),
{
    let first_order = paths[0].order;
    let last_order = paths[paths.len() - 1].order;
    if last_order == first_order {
        let mut out: Vec<Bounds> = Vec::new();
        let mut i: usize = 0;
        while i < paths.len()
            invariant
                i <= paths@.len(),
                forall|j: int| 0 <= j < paths@.len() ==> (#[trigger] paths@[j]).wf(),
                out@ == clipped_all(paths@.subrange(0, i as int)),
            decreases paths@.len() - i,
        {
            out.push(paths[i].clipped_bounds());
            proof {
                assert(paths@.subrange(0, i + 1int).drop_last() =~= paths@.subrange(0, i as int));
                assert(paths@.subrange(0, i + 1int).last() == paths@[i as int]);
            }
            i = i + 1;
        }
        proof {
            assert(paths@.subrange(0, paths@.len() as int) =~= paths@);
        }
        out
    } else {
        let mut bounds = paths[0].clipped_bounds();
        proof {
            assert(paths@.subrange(0, 1int)[0] == paths@[0]);
        }
        let mut i: usize = 1;
        while i < paths.len()
            invariant
                1 <= i <= paths@.len(),
                forall|j: int| 0 <= j < paths@.len() ==> (#[trigger] paths@[j]).wf(),
                bounds == union_clipped(paths@.subrange(0, i as int)),
                bounds.wf(),
            decreases paths@.len() - i,
        {
            let clip = paths[i].clipped_bounds();
            bounds = bounds.union(&clip);
            proof {
                assert(paths@.subrange(0, i + 1int).drop_last() =~= paths@.subrange(0, i as int));
                assert(paths@.subrange(0, i + 1int).last() == paths@[i as int]);
                assert(paths@.subrange(0, i + 1int).len() > 1);
            }
            i = i + 1;
        }
        proof {
            assert(paths@.subrange(0, paths@.len() as int) =~= paths@);
        }
        let mut out: Vec<Bounds> = Vec::new();
        out.push(bounds);
        proof {
            assert(out@ =~= seq![union_clipped(paths@)]);
        }
        out
    }
}


fn quads_pass(quads: &Vec<crate::scene::Quad>, load: LoadAction) -> (r: RenderCommand)
    ensures
        cmd_model(r) == simple_pass_model(
            PipelineKind::Quads,
            TextureBinding::Dummy,
            quads_bytes_spec(quads@),
            quads@.len() as int,
            load,
        ),
{
    let draw = if quads.len() == 0 {
        None
    } else {
        Some(
            PipelineDraw {
                pipeline: PipelineKind::Quads,
                texture: TextureBinding::Dummy,
                instance_bytes: quads_bytes(quads),
                vertex_count: 4,
                instance_count: quads.len(),
            },
        )
    };
    RenderCommand::Draw(DrawPass { target: PassTarget::Frame, load, draw })
}

fn shadows_pass(shadows: &Vec<crate::scene::Shadow>, load: LoadAction) -> (r: RenderCommand)
    ensures
        cmd_model(r) == simple_pass_model(
            PipelineKind::Shadows,
            TextureBinding::Dummy,
            shadows_bytes_spec(shadows@),
            shadows@.len() as int,
            load,
        ),
{
    let draw = if shadows.len() == 0 {
        None
    } else {
        Some(
            PipelineDraw {
                pipeline: PipelineKind::Shadows,
                texture: TextureBinding::Dummy,
                instance_bytes: shadows_bytes(shadows),
                vertex_count: 4,
                instance_count: shadows.len(),
            },
        )
    };
    RenderCommand::Draw(DrawPass { target: PassTarget::Frame, load, draw })
}

fn underlines_pass(underlines: &Vec<crate::scene::Underline>, load: LoadAction) -> (r:
    RenderCommand)
    ensures
        cmd_model(r) == simple_pass_model(
            PipelineKind::Underlines,
            TextureBinding::Dummy,
            underlines_bytes_spec(underlines@),
            underlines@.len() as int,
            load,
        ),
{
    let draw = if underlines.len() == 0 {
        None
    } else {
        Some(
            PipelineDraw {
                pipeline: PipelineKind::Underlines,
                texture: TextureBinding::Dummy,
                instance_bytes: underlines_bytes(underlines),
                vertex_count: 4,
                instance_count: underlines.len(),
            },
        )
    };
    RenderCommand::Draw(DrawPass { target: PassTarget::Frame, load, draw })
}

fn mono_sprites_pass(
    texture_id: AtlasTextureId,
    sprites: &Vec<crate::scene::MonochromeSprite>,
    load: LoadAction,
) -> (r: RenderCommand)
    ensures
        cmd_model(r) == simple_pass_model(
            PipelineKind::MonochromeSprites,
            TextureBinding::AtlasTexture(texture_id),
            mono_sprites_bytes_spec(sprites@),
            sprites@.len() as int,
            load,
        ),
{
    let draw = if sprites.len() == 0 {
        None
    } else {
        Some(
            PipelineDraw {
                pipeline: PipelineKind::MonochromeSprites,
                texture: TextureBinding::AtlasTexture(texture_id),
                instance_bytes: mono_sprites_bytes(sprites),
                vertex_count: 4,
                instance_count: sprites.len(),
            },
        )
    };
    RenderCommand::Draw(DrawPass { target: PassTarget::Frame, load, draw })
}

fn poly_sprites_pass(
    texture_id: AtlasTextureId,
    sprites: &Vec<crate::scene::PolychromeSprite>,
    load: LoadAction,
) -> (r: RenderCommand)
    ensures
        cmd_model(r) == simple_pass_model(
            PipelineKind::PolychromeSprites,
            TextureBinding::AtlasTexture(texture_id),
            poly_sprites_bytes_spec(sprites@),
            sprites@.len() as int,
            load,
        ),
{
    let draw = if sprites.len() == 0 {
        None
    } else {
        Some(
            PipelineDraw {
                pipeline: PipelineKind::PolychromeSprites,
                texture: TextureBinding::AtlasTexture(texture_id),
                instance_bytes: poly_sprites_bytes(sprites),
                vertex_count: 4,
                instance_count: sprites.len(),
            },
        )
    };
    RenderCommand::Draw(DrawPass { target: PassTarget::Frame, load, draw })
}

/// The renderer: owns the atlas and the per-frame decisions. The GPU
/// resources (surface, pipelines, intermediate textures) live in the shell
/// and are driven by the commands `draw` returns.
pub struct Renderer {
    atlas: TextureAtlas,
    surface_size: Size,
    transparent: bool,
    path_sample_count: u32,
    path_intermediate_size: Option<Size>,
}

impl Renderer {
    pub closed spec fn spec_atlas(self) -> TextureAtlas {
        self.atlas
    }

    /// The current drawable extent.
    pub closed spec fn viewport(self) -> Size {
        self.surface_size
    }

    /// Whether the surface composites with premultiplied alpha.
    pub closed spec fn premultiplied_alpha(self) -> bool {
        self.transparent
    }

    pub closed spec fn spec_sample_count(self) -> u32 {
        self.path_sample_count
    }

    /// The extent of the path intermediate target, if it currently exists.
    pub closed spec fn intermediate(self) -> Option<Size> {
        self.path_intermediate_size
    }

    pub closed spec fn wf(self) -> bool {
        self.atlas.wf()
    }

    /// A new renderer over a fresh atlas. The sample count comes from the
    /// one-time startup probe; the intermediate target does not exist yet.
    pub fn new(size: Size, transparent: bool, path_sample_count: u32) -> (r: Renderer)
        ensures
            r.wf(),
            r.viewport() == size,
            r.premultiplied_alpha() == transparent,
            r.spec_sample_count() == path_sample_count,
            r.intermediate() is None,
            r.spec_atlas().tiles() == Map::<u128, AtlasTile>::empty(),
            r.spec_atlas().pending().len() == 0,
    {
        Renderer {
            atlas: TextureAtlas::new(),
            surface_size: size,
            transparent,
            path_sample_count,
            path_intermediate_size: None,
        }
    }

    /// The atlas, for populating sprite content.
    pub fn sprite_atlas(&self) -> (r: &TextureAtlas)
        ensures
            *r == self.spec_atlas(),
    {
        &self.atlas
    }

    /// The atlas, for populating sprite content between frames.
    pub fn sprite_atlas_mut(&mut self) -> (r: &mut TextureAtlas)
        ensures
            *r == old(self).spec_atlas(),
            final(self).spec_atlas() == *final(r),
            final(self).viewport() == old(self).viewport(),
            final(self).premultiplied_alpha() == old(self).premultiplied_alpha(),
            final(self).spec_sample_count() == old(self).spec_sample_count(),
            final(self).intermediate() == old(self).intermediate(),
    {
        &mut self.atlas
    }

    pub fn gpu_specs(&self) -> (r: GpuSpecs)
        ensures
            !r.is_software_emulated,
            r.device_name@ == "WebGPU"@,
            r.driver_name@ == "Browser"@,
            r.driver_info@ == "WebGPU API"@,
    {
        GpuSpecs {
            is_software_emulated: false,
            device_name: "WebGPU".to_string(),
            driver_name: "Browser".to_string(),
            driver_info: "WebGPU API".to_string(),
        }
    }

    /// Adopt a new drawable size. A real change invalidates the path
    /// intermediate target, so the next path draw recreates it at the new
    /// size; a no-op change keeps everything.
    pub fn update_drawable_size(&mut self, size: Size)
        ensures
            final(self).spec_atlas() == old(self).spec_atlas(),
            final(self).premultiplied_alpha() == old(self).premultiplied_alpha(),
            final(self).spec_sample_count() == old(self).spec_sample_count(),
            final(self).viewport() == size,
            size == old(self).viewport() ==> *final(self) == *old(self),
            size != old(self).viewport() ==> final(self).intermediate() is None,
    {
        if !(self.surface_size == size) {
            self.surface_size = size;
            self.path_intermediate_size = None;
        }
    }

    /// Render one frame: drain the atlas's pending uploads (they come
    /// first, before any pass can read the atlas), then walk the batches
    /// in paint order, emitting their passes. The first batch clears the
    /// frame, the rest accumulate onto it.
    #[verifier::rlimit(100)]
    pub fn draw(&mut self, scene: &Scene) -> (r: Vec<RenderCommand>)
        requires
            old(self).wf(),
            scene_wf(*scene),
        ensures
            final(self).wf(),
            final(self).spec_atlas().tiles() == old(self).spec_atlas().tiles(),
            final(self).spec_atlas().pending().len() == 0,
            final(self).viewport() == old(self).viewport(),
            final(self).premultiplied_alpha() == old(self).premultiplied_alpha(),
            final(self).spec_sample_count() == old(self).spec_sample_count(),
            final(self).intermediate() == state_after_all(
                scene.batches@,
                (FrameState { first: true, inter: old(self).intermediate() }),
                old(self).viewport(),
            ).inter,
            cmds_models(r@) == upload_models(old(self).spec_atlas().pending()) + batches_models(
                scene.batches@,
                (FrameState { first: true, inter: old(self).intermediate() }),
                old(self).viewport(),
                old(self).spec_sample_count(),
            ),
    {
        let ghost st0 = FrameState { first: true, inter: old(self).intermediate() };
        let ghost viewport = old(self).viewport();
        let ghost sc = old(self).spec_sample_count();
        let ghost all_uploads = old(self).spec_atlas().pending();

        let mut uploads = self.atlas.before_frame();
        let mut out: Vec<RenderCommand> = Vec::new();
        proof {
            assert(uploads@ =~= all_uploads.subrange(0, all_uploads.len() as int));
            assert(upload_models(all_uploads.subrange(0, 0int)) =~= Seq::empty());
            assert(cmds_models(out@) =~= Seq::empty());
        }
        while uploads.len() > 0
            invariant
                uploads@.len() <= all_uploads.len(),
                uploads@ == all_uploads.subrange(
                    all_uploads.len() - uploads@.len(),
                    all_uploads.len() as int,
                ),
                cmds_models(out@) == upload_models(
                    all_uploads.subrange(0, all_uploads.len() - uploads@.len()),
                ),
            decreases uploads@.len(),
        {
            let ghost pre_uploads = uploads@;
            let ghost pre_out = out@;
            let up = uploads.remove(0);
            out.push(RenderCommand::UploadTexture(up));
            proof {
                let done = all_uploads.len() - pre_uploads.len();
                assert(pre_uploads[0] == all_uploads[done]);
                assert(out@ == pre_out.push(out@.last()));
                lemma_cmds_models_push(pre_out, out@.last());
                pre_uploads.remove_ensures(0int);
                assert(uploads@ =~= all_uploads.subrange(
                    done + 1,
                    all_uploads.len() as int,
                ));
                lemma_upload_models_snoc(all_uploads, done + 1);
                assert(cmds_models(out@) =~= upload_models(
                    all_uploads.subrange(0, done + 1),
                ));
            }
        }
        proof {
            assert(all_uploads.subrange(0, all_uploads.len() as int) =~= all_uploads);
        }

        let mut is_first = true;
        let mut i: usize = 0;
        while i < scene.batches.len()
            invariant
                i <= scene.batches@.len(),
                self.wf(),
                scene_wf(*scene),
                self.spec_atlas().tiles() == old(self).spec_atlas().tiles(),
                self.spec_atlas().pending().len() == 0,
                self.viewport() == viewport,
                self.premultiplied_alpha() == old(self).premultiplied_alpha(),
                self.spec_sample_count() == sc,
                (FrameState { first: is_first, inter: self.intermediate() }) == state_after_all(
                    scene.batches@.subrange(0, i as int),
                    st0,
                    viewport,
                ),
                cmds_models(out@) == upload_models(all_uploads) + batches_models(
                    scene.batches@.subrange(0, i as int),
                    st0,
                    viewport,
                    sc,
                ),
            decreases scene.batches@.len() - i,
        {
            let ghost prefix = scene.batches@.subrange(0, i as int);
            let ghost st_i = state_after_all(prefix, st0, viewport);
            let ghost pre_cmds = out@;
            match &scene.batches[i] {
                PrimitiveBatch::Quads(quads) => {
                    let load = load_action(is_first);
                    is_first = false;
                    out.push(quads_pass(quads, load));
                    proof {
                        lemma_cmds_models_push(pre_cmds, out@.last());
                        assert(batch_models(scene.batches@[i as int], st_i, viewport, sc)
                            =~= seq![cmd_model(out@.last())]);
                    }
                },
                PrimitiveBatch::Shadows(shadows) => {
                    let load = load_action(is_first);
                    is_first = false;
                    out.push(shadows_pass(shadows, load));
                    proof {
                        lemma_cmds_models_push(pre_cmds, out@.last());
                        assert(batch_models(scene.batches@[i as int], st_i, viewport, sc)
                            =~= seq![cmd_model(out@.last())]);
                    }
                },
                PrimitiveBatch::Underlines(underlines) => {
                    let load = load_action(is_first);
                    is_first = false;
                    out.push(underlines_pass(underlines, load));
                    proof {
                        lemma_cmds_models_push(pre_cmds, out@.last());
                        assert(batch_models(scene.batches@[i as int], st_i, viewport, sc)
                            =~= seq![cmd_model(out@.last())]);
                    }
                },
                PrimitiveBatch::MonochromeSprites { texture_id, sprites } => {
                    let load = load_action(is_first);
                    is_first = false;
                    out.push(mono_sprites_pass(*texture_id, sprites, load));
                    proof {
                        lemma_cmds_models_push(pre_cmds, out@.last());
                        assert(batch_models(scene.batches@[i as int], st_i, viewport, sc)
                            =~= seq![cmd_model(out@.last())]);
                    }
                },
                PrimitiveBatch::PolychromeSprites { texture_id, sprites } => {
                    let load = load_action(is_first);
                    is_first = false;
                    out.push(poly_sprites_pass(*texture_id, sprites, load));
                    proof {
                        lemma_cmds_models_push(pre_cmds, out@.last());
                        assert(batch_models(scene.batches@[i as int], st_i, viewport, sc)
                            =~= seq![cmd_model(out@.last())]);
                    }
                },
                PrimitiveBatch::Surfaces(_) => {
                    let load = load_action(is_first);
                    is_first = false;
                    out.push(
                        RenderCommand::Draw(
                            DrawPass { target: PassTarget::Frame, load, draw: None },
                        ),
                    );
                    proof {
                        lemma_cmds_models_push(pre_cmds, out@.last());
                        assert(batch_models(scene.batches@[i as int], st_i, viewport, sc)
                            =~= seq![cmd_model(out@.last())]);
                    }
                },
                PrimitiveBatch::Paths(paths) => {
                    if paths.len() > 0 {
                        if self.path_intermediate_size.is_none() {
                            out.push(
                                RenderCommand::CreatePathIntermediate {
                                    size: self.surface_size,
                                    sample_count: self.path_sample_count,
                                },
                            );
                            proof {
                                lemma_cmds_models_push(pre_cmds, out@.last());
                            }
                            self.path_intermediate_size = Some(self.surface_size);
                        }
                        let ghost cmds_after_create = out@;
                        let vbytes = paths_vertex_buffer(paths);
                        let vlen = vbytes.len();
                        if vlen > 0 {
                            out.push(
                                RenderCommand::Draw(
                                    DrawPass {
                                        target: PassTarget::PathIntermediate,
                                        load: LoadAction::ClearTransparent,
                                        draw: Some(
                                            PipelineDraw {
                                                pipeline: PipelineKind::PathRasterization,
                                                texture: TextureBinding::Dummy,
                                                instance_bytes: vbytes,
                                                vertex_count: vlen / 104,
                                                instance_count: 1,
                                            },
                                        ),
                                    },
                                ),
                            );
                            proof {
                                lemma_cmds_models_push(cmds_after_create, out@.last());
                            }
                        }
                        let ghost cmds_after_raster = out@;
                        let load = load_action(is_first);
                        is_first = false;
                        let sprite_bounds = path_sprites(paths);
                        let sprite_count = sprite_bounds.len();
                        let sbytes = path_sprites_buffer(&sprite_bounds);
                        out.push(
                            RenderCommand::Draw(
                                DrawPass {
                                    target: PassTarget::Frame,
                                    load,
                                    draw: Some(
                                        PipelineDraw {
                                            pipeline: PipelineKind::PathSprites,
                                            texture: TextureBinding::PathIntermediate,
                                            instance_bytes: sbytes,
                                            vertex_count: 4,
                                            instance_count: sprite_count,
                                        },
                                    ),
                                },
                            ),
                        );
                        proof {
                            lemma_cmds_models_push(cmds_after_raster, out@.last());
                            assert(cmds_models(out@) =~= cmds_models(pre_cmds) + batch_models(
                                scene.batches@[i as int],
                                st_i,
                                viewport,
                                sc,
                            ));
                        }
                    }
                },
            }
            proof {
                lemma_batches_models_snoc(prefix, scene.batches@[i as int], st0, viewport, sc);
                assert(scene.batches@.subrange(0, i + 1int) =~= prefix.push(
                    scene.batches@[i as int],
                ));
                assert(cmds_models(out@) =~= upload_models(all_uploads) + batches_models(
                    scene.batches@.subrange(0, i + 1int),
                    st0,
                    viewport,
                    sc,
                ));
            }
            i = i + 1;
        }
        proof {
            assert(scene.batches@.subrange(0, scene.batches@.len() as int) =~= scene.batches@);
        }
        out
    }
}

/// The passes of a command list that touch the frame target, in order.
pub open spec fn frame_passes(cmds: Seq<CmdModel>) -> Seq<CmdModel>
    decreases cmds.len(),
{
    if cmds.len() == 0 {
        Seq::empty()
    } else {
        frame_passes(cmds.drop_last()) + (match cmds.last() {
            CmdModel::Pass { target: PassTarget::Frame, .. } => seq![cmds.last()],
            _ => Seq::empty(),
        })
    }
}

/// The batches that produce a frame pass: every batch but an empty path
/// batch, which is skipped outright.
pub open spec fn drawn_batches(bs: Seq<PrimitiveBatch>) -> Seq<PrimitiveBatch>
    decreases bs.len(),
{
    if bs.len() == 0 {
        Seq::empty()
    } else {
        drawn_batches(bs.drop_last()) + (match bs.last() {
            PrimitiveBatch::Paths(v) => if v@.len() == 0 {
                Seq::empty()
            } else {
                seq![bs.last()]
            },
            _ => seq![bs.last()],
        })
    }
}

/// The one frame pass a drawn batch produces, given its load action.
pub open spec fn frame_pass_of(b: PrimitiveBatch, load: LoadAction) -> CmdModel {
    match b {
        PrimitiveBatch::Quads(v) => simple_pass_model(
            PipelineKind::Quads,
            TextureBinding::Dummy,
            quads_bytes_spec(v@),
            v@.len() as int,
            load,
        ),
        PrimitiveBatch::Shadows(v) => simple_pass_model(
            PipelineKind::Shadows,
            TextureBinding::Dummy,
            shadows_bytes_spec(v@),
            v@.len() as int,
            load,
        ),
        PrimitiveBatch::Underlines(v) => simple_pass_model(
            PipelineKind::Underlines,
            TextureBinding::Dummy,
            underlines_bytes_spec(v@),
            v@.len() as int,
            load,
        ),
        PrimitiveBatch::MonochromeSprites { texture_id, sprites } => simple_pass_model(
            PipelineKind::MonochromeSprites,
            TextureBinding::AtlasTexture(texture_id),
            mono_sprites_bytes_spec(sprites@),
            sprites@.len() as int,
            load,
        ),
        PrimitiveBatch::PolychromeSprites { texture_id, sprites } => simple_pass_model(
            PipelineKind::PolychromeSprites,
            TextureBinding::AtlasTexture(texture_id),
            poly_sprites_bytes_spec(sprites@),
            sprites@.len() as int,
            load,
        ),
        PrimitiveBatch::Surfaces(_) => CmdModel::Pass {
            target: PassTarget::Frame,
            load,
            draw: None,
        },
        PrimitiveBatch::Paths(v) => CmdModel::Pass {
            target: PassTarget::Frame,
            load,
            draw: Some(
                DrawModel {
                    pipeline: PipelineKind::PathSprites,
                    texture: TextureBinding::PathIntermediate,
                    bytes: path_sprites_bytes_spec(path_sprite_instances(v@)),
                    vertex_count: 4,
                    instance_count: path_sprite_instances(v@).len() as int,
                },
            ),
        },
    }
}

proof fn lemma_frame_passes_concat(a: Seq<CmdModel>, b: Seq<CmdModel>)
    ensures
        frame_passes(a + b) == frame_passes(a) + frame_passes(b),
    decreases b.len(),
{
    if b.len() == 0 {
        assert(a + b =~= a);
        assert(frame_passes(a) + frame_passes(b) =~= frame_passes(a));
    } else {
        lemma_frame_passes_concat(a, b.drop_last());
        assert((a + b).drop_last() =~= a + b.drop_last());
        assert((a + b).last() == b.last());
        match b.last() {
            CmdModel::Pass { target: PassTarget::Frame, .. } => {
                assert(frame_passes(a + b) =~= frame_passes(a) + frame_passes(b));
            },
            _ => {
                assert(frame_passes(b) =~= frame_passes(b.drop_last()));
                assert(frame_passes(a + b) =~= frame_passes(a) + frame_passes(b));
            },
        }
    }
}

/// One batch's commands hold exactly one frame pass — the batch's own,
/// with the given load — unless the batch is an empty path batch, which
/// holds none.
proof fn lemma_frame_passes_of_batch(b: PrimitiveBatch, st: FrameState, viewport: Size, sc: u32)
    ensures
        frame_passes(batch_models(b, st, viewport, sc)) == (match b {
            PrimitiveBatch::Paths(v) => if v@.len() == 0 {
                Seq::<CmdModel>::empty()
            } else {
                seq![frame_pass_of(b, load_of(st.first))]
            },
            _ => seq![frame_pass_of(b, load_of(st.first))],
        }),
{
    match b {
        PrimitiveBatch::Paths(v) => {
            if v@.len() != 0 {
                let models = batch_models(b, st, viewport, sc);
                assert(models.last() == frame_pass_of(b, load_of(st.first)));
                assert(frame_passes(models.drop_last()) =~= Seq::empty()) by {
                    let rest = models.drop_last();
                    if rest.len() > 0 {
                        assert(frame_passes(rest.drop_last()) =~= Seq::empty()) by {
                            let rest2 = rest.drop_last();
                            if rest2.len() > 0 {
                                assert(frame_passes(rest2.drop_last()) =~= Seq::empty());
                            }
                        }
                    }
                }
                assert(frame_passes(models) =~= seq![frame_pass_of(b, load_of(st.first))]);
            } else {
                assert(frame_passes(batch_models(b, st, viewport, sc)) =~= Seq::empty());
            }
        },
        _ => {
            let models = batch_models(b, st, viewport, sc);
            assert(models.len() == 1);
            assert(models.last() == frame_pass_of(b, load_of(st.first)));
            assert(frame_passes(models.drop_last()) =~= Seq::empty());
            assert(frame_passes(models) =~= seq![frame_pass_of(b, load_of(st.first))]);
        },
    }
}

/// Law: paint order is preserved. Rendering batches in order produces
/// frame passes in the same relative order: the k-th frame pass is exactly
/// the pass of the k-th drawn batch, the first drawn batch clears the
/// frame (when the frame is untouched), and every later one accumulates.
pub proof fn lemma_paint_order_preserved(
    bs: Seq<PrimitiveBatch>,
    st: FrameState,
    viewport: Size,
    sc: u32,
)
    ensures
        frame_passes(batches_models(bs, st, viewport, sc)).len() == drawn_batches(bs).len(),
        forall|k: int|
            0 <= k < drawn_batches(bs).len() ==> frame_passes(
                batches_models(bs, st, viewport, sc),
            )[k] == frame_pass_of(#[trigger] drawn_batches(bs)[k], load_of(st.first && k == 0)),
    decreases bs.len(),
{
    if bs.len() == 0 {
    } else {
        let b0 = bs[0];
        let st1 = state_after(b0, st, viewport);
        let rest = bs.drop_first();
        lemma_paint_order_preserved(rest, st1, viewport, sc);
        lemma_frame_passes_concat(
            batch_models(b0, st, viewport, sc),
            batches_models(rest, st1, viewport, sc),
        );
        lemma_frame_passes_of_batch(b0, st, viewport, sc);
        lemma_drawn_batches_cons(bs);
        let skipped = match b0 {
            PrimitiveBatch::Paths(v) => v@.len() == 0,
            _ => false,
        };
        if skipped {
            assert(st1 == st);
            assert(drawn_batches(bs) =~= drawn_batches(rest));
            assert(frame_passes(batches_models(bs, st, viewport, sc)) =~= frame_passes(
                batches_models(rest, st1, viewport, sc),
            ));
        } else {
            assert(!st1.first);
            assert(drawn_batches(bs) =~= seq![b0] + drawn_batches(rest));
            assert(frame_passes(batches_models(bs, st, viewport, sc)) =~= seq![
                frame_pass_of(b0, load_of(st.first)),
            ] + frame_passes(batches_models(rest, st1, viewport, sc)));
        }
    }
}

/// `drawn_batches` seen from the front: the head batch is kept unless it
/// is an empty path batch.
proof fn lemma_drawn_batches_cons(bs: Seq<PrimitiveBatch>)
    requires
        bs.len() > 0,
    ensures
        drawn_batches(bs) == (match bs[0] {
            PrimitiveBatch::Paths(v) => if v@.len() == 0 {
                drawn_batches(bs.drop_first())
            } else {
                seq![bs[0]] + drawn_batches(bs.drop_first())
            },
            _ => seq![bs[0]] + drawn_batches(bs.drop_first()),
        }),
    decreases bs.len(),
{
    if bs.len() == 1 {
        assert(bs.drop_first() =~= Seq::empty());
        assert(bs.last() == bs[0]);
        assert(bs.drop_last() =~= Seq::empty());
        match bs[0] {
            PrimitiveBatch::Paths(v) => {
                if v@.len() == 0 {
                    assert(drawn_batches(bs) =~= drawn_batches(bs.drop_first()));
                } else {
                    assert(drawn_batches(bs) =~= seq![bs[0]] + drawn_batches(bs.drop_first()));
                }
            },
            _ => {
                assert(drawn_batches(bs) =~= seq![bs[0]] + drawn_batches(bs.drop_first()));
            },
        }
    } else {
        lemma_drawn_batches_cons(bs.drop_last());
        assert(bs.drop_last()[0] == bs[0]);
        assert(bs.drop_first().drop_last() =~= bs.drop_last().drop_first());
        assert(bs.drop_first().last() == bs.last());
        match bs[0] {
            PrimitiveBatch::Paths(v) => {
                if v@.len() == 0 {
                    assert(drawn_batches(bs) =~= drawn_batches(bs.drop_first()));
                } else {
                    assert(drawn_batches(bs) =~= seq![bs[0]] + drawn_batches(bs.drop_first()));
                }
            },
            _ => {
                assert(drawn_batches(bs) =~= seq![bs[0]] + drawn_batches(bs.drop_first()));
            },
        }
    }
}

proof fn lemma_clipped_all_index(paths: Seq<Path>, j: int)
    requires
        0 <= j < paths.len(),
    ensures
        clipped_all(paths).len() == paths.len(),
        clipped_all(paths)[j] == clipped(paths[j]),
    decreases paths.len(),
{
    if paths.len() > 0 && j < paths.len() - 1 {
        lemma_clipped_all_index(paths.drop_last(), j);
    } else if paths.len() > 0 {
        lemma_clipped_all_len(paths.drop_last());
    }
}

proof fn lemma_clipped_all_len(paths: Seq<Path>)
    ensures
        clipped_all(paths).len() == paths.len(),
    decreases paths.len(),
{
    if paths.len() > 0 {
        lemma_clipped_all_len(paths.drop_last());
    }
}

/// Law: two paths sharing a batch and one paint order produce one copy
/// draw call with one instance per path, each covering that path's own
/// clipped bounds; a batch whose paths span several paint orders produces
/// a single instance covering the union of their clipped bounds.
pub proof fn lemma_path_batch_copy_instances(paths: Seq<Path>)
    requires
        paths.len() > 0,
    ensures
        paths[0].order == paths.last().order ==> path_sprite_instances(paths).len() == paths.len()
            && (forall|j: int|
            0 <= j < paths.len() ==> path_sprite_instances(paths)[j] == clipped(
                #[trigger] paths[j],
            )),
        paths[0].order != paths.last().order ==> path_sprite_instances(paths).len() == 1
            && path_sprite_instances(paths)[0] == union_clipped(paths),
{
    if paths[0].order == paths.last().order {
        lemma_clipped_all_len(paths);
        assert forall|j: int| 0 <= j < paths.len() implies path_sprite_instances(paths)[j]
            == clipped(#[trigger] paths[j]) by {
            lemma_clipped_all_index(paths, j);
        }
    }
}

/// True of the frame pass a path batch produces: a copy draw through the
/// path-sprites pipeline.
pub open spec fn is_path_copy_pass(c: CmdModel) -> bool {
    match c {
        CmdModel::Pass { target: PassTarget::Frame, draw: Some(d), .. } => d.pipeline
            == PipelineKind::PathSprites,
        _ => false,
    }
}

/// Law: path batches copy separately. The k-th frame pass is a
/// path-sprites copy exactly when the k-th drawn batch is a path batch —
/// so two path batches of differing paint order interleaved with another
/// batch produce two separate copy draw calls, one per batch, in paint
/// order, each with its own instances.
pub proof fn lemma_path_batches_copy_separately(
    bs: Seq<PrimitiveBatch>,
    st: FrameState,
    viewport: Size,
    sc: u32,
)
    ensures
        frame_passes(batches_models(bs, st, viewport, sc)).len() == drawn_batches(bs).len(),
        forall|k: int|
            0 <= k < drawn_batches(bs).len() ==> (is_path_copy_pass(
                frame_passes(batches_models(bs, st, viewport, sc))[k],
            ) <==> (#[trigger] drawn_batches(bs)[k]) is Paths),
{
    lemma_paint_order_preserved(bs, st, viewport, sc);
    assert forall|k: int| 0 <= k < drawn_batches(bs).len() implies (is_path_copy_pass(
        frame_passes(batches_models(bs, st, viewport, sc))[k],
    ) <==> (#[trigger] drawn_batches(bs)[k]) is Paths) by {
        let b = drawn_batches(bs)[k];
        assert(frame_passes(batches_models(bs, st, viewport, sc))[k] == frame_pass_of(
            b,
            load_of(st.first && k == 0),
        ));
    }
}

/// True when some batch draws paths.
pub open spec fn has_drawn_paths(bs: Seq<PrimitiveBatch>) -> bool {
    exists|i: int|
        0 <= i < bs.len() && match #[trigger] bs[i] {
            PrimitiveBatch::Paths(v) => v@.len() > 0,
            _ => false,
        }
}

/// Once the intermediate target exists, no batch replaces it.
proof fn lemma_intermediate_persists(bs: Seq<PrimitiveBatch>, st: FrameState, viewport: Size)
    requires
        st.inter is Some,
    ensures
        state_after_all(bs, st, viewport).inter == st.inter,
    decreases bs.len(),
{
    if bs.len() > 0 {
        lemma_intermediate_persists(bs.drop_first(), state_after(bs[0], st, viewport), viewport);
    }
}

/// Law: after a resize has invalidated the intermediate target, a frame
/// that draws paths recreates it at the current viewport — its commands
/// contain the creation at exactly that size, and the frame ends with the
/// intermediate pinned to the viewport. No stale-sized target survives.
pub proof fn lemma_resize_recreates_intermediate(
    bs: Seq<PrimitiveBatch>,
    st: FrameState,
    viewport: Size,
    sc: u32,
)
    requires
        st.inter is None,
        has_drawn_paths(bs),
    ensures
        batches_models(bs, st, viewport, sc).contains(
            CmdModel::CreateIntermediate { size: viewport, sample_count: sc },
        ),
        state_after_all(bs, st, viewport).inter == Some(viewport),
    decreases bs.len(),
{
    let b0 = bs[0];
    let st1 = state_after(b0, st, viewport);
    let rest = bs.drop_first();
    let drawn0 = match b0 {
        PrimitiveBatch::Paths(v) => v@.len() > 0,
        _ => false,
    };
    if drawn0 {
        assert(batch_models(b0, st, viewport, sc)[0] == CmdModel::CreateIntermediate {
            size: viewport,
            sample_count: sc,
        });
        assert(batches_models(bs, st, viewport, sc)[0] == CmdModel::CreateIntermediate {
            size: viewport,
            sample_count: sc,
        });
        assert(batches_models(bs, st, viewport, sc).contains(
            CmdModel::CreateIntermediate { size: viewport, sample_count: sc },
        ));
        lemma_intermediate_persists(rest, st1, viewport);
    } else {
        assert(st1.inter is None);
        assert(has_drawn_paths(rest)) by {
            let i = choose|i: int|
                0 <= i < bs.len() && match #[trigger] bs[i] {
                    PrimitiveBatch::Paths(v) => v@.len() > 0,
                    _ => false,
                };
            assert(i != 0);
            assert(rest[i - 1] == bs[i]);
        }
        lemma_resize_recreates_intermediate(rest, st1, viewport, sc);
        let c = CmdModel::CreateIntermediate { size: viewport, sample_count: sc };
        let j = choose|j: int|
            0 <= j < batches_models(rest, st1, viewport, sc).len() && batches_models(
                rest,
                st1,
                viewport,
                sc,
            )[j] == c;
        assert(batches_models(bs, st, viewport, sc)[batch_models(
            b0,
            st,
            viewport,
            sc,
        ).len() + j] == c);
        assert(batches_models(bs, st, viewport, sc).contains(c));
    }
}

proof fn lemma_upload_models_snoc(ups: Seq<PendingUpload>, n: int)
    requires
        0 < n <= ups.len(),
    ensures
        upload_models(ups.subrange(0, n)) == upload_models(ups.subrange(0, n - 1)).push(
            CmdModel::Upload { id: ups[n - 1].id, bounds: ups[n - 1].bounds, data: ups[n - 1].data@ },
        ),
{
    assert(ups.subrange(0, n).drop_last() =~= ups.subrange(0, n - 1));
    assert(ups.subrange(0, n).last() == ups[n - 1]);
}


proof fn lemma_upload_models_only_uploads(ups: Seq<PendingUpload>)
    ensures
        upload_models(ups).len() == ups.len(),
        forall|k: int|
            0 <= k < upload_models(ups).len() ==> (#[trigger] upload_models(ups)[k]) is Upload,
    decreases ups.len(),
{
    if ups.len() > 0 {
        lemma_upload_models_only_uploads(ups.drop_last());
    }
}

proof fn lemma_batch_models_no_uploads(b: PrimitiveBatch, st: FrameState, viewport: Size, sc: u32)
    ensures
        forall|k: int|
            0 <= k < batch_models(b, st, viewport, sc).len() ==> !((#[trigger] batch_models(
                b,
                st,
                viewport,
                sc,
            )[k]) is Upload),
{
}

proof fn lemma_batches_models_no_uploads(
    bs: Seq<PrimitiveBatch>,
    st: FrameState,
    viewport: Size,
    sc: u32,
)
    ensures
        forall|k: int|
            0 <= k < batches_models(bs, st, viewport, sc).len() ==> !((#[trigger] batches_models(
                bs,
                st,
                viewport,
                sc,
            )[k]) is Upload),
    decreases bs.len(),
{
    if bs.len() > 0 {
        lemma_batch_models_no_uploads(bs[0], st, viewport, sc);
        lemma_batches_models_no_uploads(
            bs.drop_first(),
            state_after(bs[0], st, viewport),
            viewport,
            sc,
        );
    }
}

/// Law: within one frame, every pixel upload precedes every render pass —
/// a command is an upload exactly when it stands in the upload prefix, so
/// no pass can read the atlas before the bytes of this frame have landed.
pub proof fn lemma_uploads_precede_passes(
    ups: Seq<PendingUpload>,
    bs: Seq<PrimitiveBatch>,
    st: FrameState,
    viewport: Size,
    sc: u32,
)
    ensures
        forall|k: int|
            0 <= k < (upload_models(ups) + batches_models(bs, st, viewport, sc)).len() ==> ((
            #[trigger] (upload_models(ups) + batches_models(bs, st, viewport, sc))[k]) is Upload
                <==> k < ups.len()),
{
    lemma_upload_models_only_uploads(ups);
    lemma_batches_models_no_uploads(bs, st, viewport, sc);
}

} // verus!
