//! The draw procedure: the render commands it runs, in order, and what each
//! records on the render pass.
use vstd::prelude::*;

use crate::gpu_quads::GpuQuads;
use crate::phase_item::DrawFunctionId;

verus! {

/// Whether a render command could do its work.
#[derive(Clone, Copy, Debug, PartialEq, Eq, Structural)]
pub enum RenderCommandResult {
    Success,
    Failure,
}

/// How an index buffer's entries are encoded.
#[derive(Clone, Copy, Debug, PartialEq, Eq, Structural)]
pub enum IndexFormat {
    Uint16,
    Uint32,
}

/// What happens to the color target's earlier content when a pass begins.
#[derive(Clone, Copy, Debug, PartialEq, Eq, Structural)]
pub enum LoadOp {
    /// Keep what is there and draw on top of it.
    Load,
    /// Clear it first.
    Clear,
}

/// One call recorded on the render pass, in the order issued.
#[derive(Clone, Copy, Debug, PartialEq, Eq, Structural)]
pub enum PassCommand {
    /// Begin the pass on the view's color target.
    BeginPass { view: u64, load: LoadOp },
    SetPipeline { pipeline: u64 },
    /// Bind a bind group at slot `index`, with its dynamic offset if it has one.
    SetBindGroup { index: usize, bind_group: u64, dynamic_offset: Option<u32> },
    /// Bind the quad buffer's index buffer from `offset`.
    SetIndexBuffer { offset: u64, format: IndexFormat },
    /// Draw indices `first_index .. index_end` with instances
    /// `first_instance .. instance_end`.
    DrawIndexed {
        first_index: u32,
        index_end: u32,
        base_vertex: i32,
        first_instance: u32,
        instance_end: u32,
    },
}

/// The view's uniform bind group and this view's offset into it.
#[derive(Clone, Copy, Debug, PartialEq, Eq, Structural)]
pub struct ViewBinding {
    pub bind_group: u64,
    pub offset: u32,
}

/// The bind group that exposes the quad records to the shader.
#[derive(Clone, Copy, Debug, PartialEq, Eq, Structural)]
pub struct GpuQuadsBindGroup {
    pub bind_group: u64,
}

/// Device objects the draw procedure binds; each is absent until created
/// (the pipeline until it has compiled).
#[derive(Clone, Copy, Debug, PartialEq, Eq, Structural)]
pub struct DrawResources {
    pub pipeline: Option<u64>,
    pub view_binding: Option<ViewBinding>,
    pub quads_bind_group: Option<GpuQuadsBindGroup>,
}

/// Slot of the view uniforms.
pub const VIEW_BIND_GROUP: usize = 0;

/// Slot of the quad records.
pub const QUADS_BIND_GROUP: usize = 1;

/// Binds the quad pipeline; fails while it has not compiled.
pub struct SetQuadsPipeline;

impl SetQuadsPipeline {
    pub fn render(res: &DrawResources, pass: &mut Vec<PassCommand>) -> (r: RenderCommandResult)
        ensures
            match res.pipeline {
                Some(p) => r == RenderCommandResult::Success && final(pass)@ == old(pass)@.push(
                    PassCommand::SetPipeline { pipeline: p },
                ),
                None => r == RenderCommandResult::Failure && final(pass)@ == old(pass)@,
            },
    {
        match res.pipeline {
            Some(p) => {
                pass.push(PassCommand::SetPipeline { pipeline: p });
                RenderCommandResult::Success
            },
            None => RenderCommandResult::Failure,
        }
    }
}

/// Binds the view uniforms at slot `I`, at the view's offset.
pub struct SetViewBindGroup<const I: usize>;

impl<const I: usize> SetViewBindGroup<I> {
    pub fn render(res: &DrawResources, pass: &mut Vec<PassCommand>) -> (r: RenderCommandResult)
        ensures
            match res.view_binding {
                Some(vb) => r == RenderCommandResult::Success && final(pass)@ == old(pass)@.push(
                    PassCommand::SetBindGroup {
                        index: I,
                        bind_group: vb.bind_group,
                        dynamic_offset: Some(vb.offset),
                    },
                ),
                None => r == RenderCommandResult::Failure && final(pass)@ == old(pass)@,
            },
    {
        match res.view_binding {
            Some(vb) => {
                pass.push(
                    PassCommand::SetBindGroup {
                        index: I,
                        bind_group: vb.bind_group,
                        dynamic_offset: Some(vb.offset),
                    },
                );
                RenderCommandResult::Success
            },
            None => RenderCommandResult::Failure,
        }
    }
}

/// Binds the quad records at slot `I`; fails while no binding exists.
pub struct SetGpuQuadsBindGroup<const I: usize>;

impl<const I: usize> SetGpuQuadsBindGroup<I> {
    pub fn render(res: &DrawResources, pass: &mut Vec<PassCommand>) -> (r: RenderCommandResult)
        ensures
            match res.quads_bind_group {
                Some(b) => r == RenderCommandResult::Success && final(pass)@ == old(pass)@.push(
                    PassCommand::SetBindGroup { index: I, bind_group: b.bind_group, dynamic_offset: None },
                ),
                None => r == RenderCommandResult::Failure && final(pass)@ == old(pass)@,
            },
    {
        match res.quads_bind_group {
            Some(b) => {
                pass.push(
                    PassCommand::SetBindGroup { index: I, bind_group: b.bind_group, dynamic_offset: None },
                );
                RenderCommandResult::Success
            },
            None => RenderCommandResult::Failure,
        }
    }
}

/// The two calls that draw every quad of the buffer: bind its index buffer,
/// then draw indices `0 .. index_count` as one instance.
pub open spec fn draw_quads_commands(gpu: GpuQuads) -> Seq<PassCommand> {
    seq![
        PassCommand::SetIndexBuffer { offset: 0, format: IndexFormat::Uint32 },
        PassCommand::DrawIndexed {
            first_index: 0,
            index_end: gpu.index_count,
            base_vertex: 0,
            first_instance: 0,
            instance_end: 1,
        },
    ]
}

/// Issues the indexed draw. A buffer without an index buffer has never
/// received a record, so its index count is zero: nothing is drawn, and
/// that is no failure.
pub struct DrawVertexPulledQuads;

impl DrawVertexPulledQuads {
    pub fn render(gpu: &GpuQuads, pass: &mut Vec<PassCommand>) -> (r: RenderCommandResult)
        ensures
            r == RenderCommandResult::Success,
            gpu.index_buffer.is_some() ==> final(pass)@ == old(pass)@ + draw_quads_commands(*gpu),
            gpu.index_buffer.is_none() ==> final(pass)@ == old(pass)@,
    {
        if gpu.index_buffer.is_some() {
            pass.push(PassCommand::SetIndexBuffer { offset: 0, format: IndexFormat::Uint32 });
            pass.push(
                PassCommand::DrawIndexed {
                    first_index: 0,
                    index_end: gpu.index_count,
                    base_vertex: 0,
                    first_instance: 0,
                    instance_end: 1,
                },
            );
            assert(pass@ =~= old(pass)@ + draw_quads_commands(*gpu));
        }
        RenderCommandResult::Success
    }
}

/// What the quad draw procedure records, and whether it succeeds: the
/// pipeline, the view uniforms, the quad records, then the draw, stopping
/// at the first command that fails.
pub open spec fn quads_draw(res: DrawResources, gpu: GpuQuads) -> (Seq<PassCommand>, RenderCommandResult) {
    match res.pipeline {
        None => (Seq::empty(), RenderCommandResult::Failure),
        Some(p) => {
            let s1 = seq![PassCommand::SetPipeline { pipeline: p }];
            match res.view_binding {
                None => (s1, RenderCommandResult::Failure),
                Some(vb) => {
                    let s2 = s1.push(
                        PassCommand::SetBindGroup {
                            index: VIEW_BIND_GROUP,
                            bind_group: vb.bind_group,
                            dynamic_offset: Some(vb.offset),
                        },
                    );
                    match res.quads_bind_group {
                        None => (s2, RenderCommandResult::Failure),
                        Some(b) => {
                            let s3 = s2.push(
                                PassCommand::SetBindGroup {
                                    index: QUADS_BIND_GROUP,
                                    bind_group: b.bind_group,
                                    dynamic_offset: None,
                                },
                            );
                            if gpu.index_buffer.is_some() {
                                (s3 + draw_quads_commands(gpu), RenderCommandResult::Success)
                            } else {
                                (s3, RenderCommandResult::Success)
                            }
                        },
                    }
                },
            }
        },
    }
}

impl DrawFunctionId {
    /// Runs the draw procedure this id names.
    pub fn draw(&self, res: &DrawResources, gpu: &GpuQuads, pass: &mut Vec<PassCommand>) -> (r:
        RenderCommandResult)
        ensures
            final(pass)@ == old(pass)@ + quads_draw(*res, *gpu).0,
            r == quads_draw(*res, *gpu).1,
    {
        match self {
            DrawFunctionId::DrawQuadsVertexPulling => draw_quads_vertex_pulling(res, gpu, pass),
        }
    }
}

/// The quad draw procedure: each command in turn, stopping at the first
/// that fails.
pub fn draw_quads_vertex_pulling(
    res: &DrawResources,
    gpu: &GpuQuads,
    pass: &mut Vec<PassCommand>,
) -> (r: RenderCommandResult)
    ensures
        final(pass)@ == old(pass)@ + quads_draw(*res, *gpu).0,
        r == quads_draw(*res, *gpu).1,
{
    let ghost start = pass@;
    if SetQuadsPipeline::render(res, pass) == RenderCommandResult::Failure {
        assert(pass@ =~= start + quads_draw(*res, *gpu).0);
        return RenderCommandResult::Failure;
    }
    if SetViewBindGroup::<VIEW_BIND_GROUP>::render(res, pass) == RenderCommandResult::Failure {
        assert(pass@ =~= start + quads_draw(*res, *gpu).0);
        return RenderCommandResult::Failure;
    }
    if SetGpuQuadsBindGroup::<QUADS_BIND_GROUP>::render(res, pass) == RenderCommandResult::Failure {
        assert(pass@ =~= start + quads_draw(*res, *gpu).0);
        return RenderCommandResult::Failure;
    }
    let r = DrawVertexPulledQuads::render(gpu, pass);
    assert(pass@ =~= start + quads_draw(*res, *gpu).0);
    r
}

} // verus!
