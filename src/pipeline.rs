//! The quad pipeline's fixed configuration, as plain values for the device
//! layer to build from.
use vstd::prelude::*;

use crate::depth::{TextureFormat, DEPTH_SAMPLE_COUNT};

verus! {

/// Which shader stages see a binding.
#[derive(Clone, Copy, Debug, PartialEq, Eq, Structural)]
pub enum ShaderStages {
    Vertex,
    VertexFragment,
}

/// The kind of buffer bound.
#[derive(Clone, Copy, Debug, PartialEq, Eq, Structural)]
pub enum BufferBindingType {
    Uniform,
    Storage { read_only: bool },
}

/// One buffer binding of a bind group layout.
#[derive(Clone, Copy, Debug, PartialEq, Eq, Structural)]
pub struct BindGroupLayoutEntry {
    pub binding: u32,
    pub visibility: ShaderStages,
    pub ty: BufferBindingType,
    pub has_dynamic_offset: bool,
    pub min_binding_size: u64,
}

#[derive(Clone, Copy, Debug, PartialEq, Eq, Structural)]
pub enum FrontFace {
    Ccw,
    Cw,
}

#[derive(Clone, Copy, Debug, PartialEq, Eq, Structural)]
pub enum Face {
    Front,
    Back,
}

/// How vertices form primitives.
#[derive(Clone, Copy, Debug, PartialEq, Eq, Structural)]
pub enum PrimitiveTopology {
    TriangleList,
    TriangleStrip,
}

#[derive(Clone, Copy, Debug, PartialEq, Eq, Structural)]
pub enum PolygonMode {
    Fill,
    Line,
}

#[derive(Clone, Copy, Debug, PartialEq, Eq, Structural)]
pub enum CompareFunction {
    Less,
    Greater,
    Always,
}

/// Entry point of the vertex stage in the quad shader.
pub const VERTEX_ENTRY: &'static str = "vertex";

/// Entry point of the fragment stage in the quad shader.
pub const FRAGMENT_ENTRY: &'static str = "fragment";

/// What the quad pipeline is built from. The vertex stage reads no vertex
/// buffer: it pulls each quad's record from group 1.
#[derive(Clone, Copy, Debug, PartialEq, Eq)]
pub struct PipelineDescriptor {
    pub vertex_entry: &'static str,
    pub fragment_entry: &'static str,
    pub vertex_buffer_count: usize,
    /// Group 0: the view uniforms, with a dynamic offset per view.
    pub view_layout: BindGroupLayoutEntry,
    /// Group 1: the quad records, read-only storage for the vertex stage.
    pub data_layout: BindGroupLayoutEntry,
    pub topology: PrimitiveTopology,
    pub polygon_mode: PolygonMode,
    pub front_face: FrontFace,
    pub cull_mode: Option<Face>,
    pub color_format: TextureFormat,
    pub depth_format: TextureFormat,
    pub depth_write_enabled: bool,
    pub depth_compare: CompareFunction,
    pub sample_count: u32,
    pub alpha_blending: bool,
}

/// The descriptor for a view uniform block of `view_uniform_size` bytes:
/// entry points `vertex` and `fragment` and no vertex buffer, filled
/// triangle lists wound counter-clockwise with back faces culled, the
/// default color format with alpha blending, 32-bit float depth written and
/// compared with `Greater`, and the depth target's sample count.
pub open spec fn quads_pipeline_descriptor(view_uniform_size: u64) -> PipelineDescriptor {
    PipelineDescriptor {
        vertex_entry: VERTEX_ENTRY,
        fragment_entry: FRAGMENT_ENTRY,
        vertex_buffer_count: 0,
        view_layout: BindGroupLayoutEntry {
            binding: 0,
            visibility: ShaderStages::VertexFragment,
            ty: BufferBindingType::Uniform,
            has_dynamic_offset: true,
            min_binding_size: view_uniform_size,
        },
        data_layout: BindGroupLayoutEntry {
            binding: 0,
            visibility: ShaderStages::Vertex,
            ty: BufferBindingType::Storage { read_only: true },
            has_dynamic_offset: false,
            min_binding_size: 0,
        },
        topology: PrimitiveTopology::TriangleList,
        polygon_mode: PolygonMode::Fill,
        front_face: FrontFace::Ccw,
        cull_mode: Some(Face::Back),
        color_format: TextureFormat::SurfaceDefault,
        depth_format: TextureFormat::Depth32Float,
        depth_write_enabled: true,
        depth_compare: CompareFunction::Greater,
        sample_count: DEPTH_SAMPLE_COUNT,
        alpha_blending: true,
    }
}

/// The quad pipeline once queued for compilation, by its cache id.
pub struct VpullPipeline {
    pub pipeline_id: u64,
}

impl VpullPipeline {
    pub fn descriptor(view_uniform_size: u64) -> (r: PipelineDescriptor)
        ensures
            r == quads_pipeline_descriptor(view_uniform_size),
    {
        PipelineDescriptor {
            vertex_entry: VERTEX_ENTRY,
            fragment_entry: FRAGMENT_ENTRY,
            vertex_buffer_count: 0,
            view_layout: BindGroupLayoutEntry {
                binding: 0,
                visibility: ShaderStages::VertexFragment,
                ty: BufferBindingType::Uniform,
                has_dynamic_offset: true,
                min_binding_size: view_uniform_size,
            },
            data_layout: BindGroupLayoutEntry {
                binding: 0,
                visibility: ShaderStages::Vertex,
                ty: BufferBindingType::Storage { read_only: true },
                has_dynamic_offset: false,
                min_binding_size: 0,
            },
            topology: PrimitiveTopology::TriangleList,
            polygon_mode: PolygonMode::Fill,
            front_face: FrontFace::Ccw,
            cull_mode: Some(Face::Back),
            color_format: TextureFormat::SurfaceDefault,
            depth_format: TextureFormat::Depth32Float,
            depth_write_enabled: true,
            depth_compare: CompareFunction::Greater,
            sample_count: DEPTH_SAMPLE_COUNT,
            alpha_blending: true,
        }
    }
}

} // verus!
