use doug_renderer::depth::{prepare_depth_texture, Extent, ExtractedCamera, TextureFormat};
use doug_renderer::gpu_quads::GpuQuads;
use doug_renderer::palette::{Palette, Rgba8};
use doug_renderer::phase_item::{DrawFunctionId, RenderPhase, VpullPhaseItem};
use doug_renderer::pipeline::{CompareFunction, Face, FrontFace, PrimitiveTopology, VpullPipeline};
use doug_renderer::plugin::{PassId, RenderSchedule, ScheduleError, VpullPlugin};
use doug_renderer::render_command::{
    DrawResources, DrawVertexPulledQuads, GpuQuadsBindGroup, LoadOp, PassCommand, RenderCommandResult,
    SetGpuQuadsBindGroup, SetQuadsPipeline,
};
use doug_renderer::render_graph::{MainNode, NodeRunError, RenderState, VpullPassNode};

#[test]
fn pipeline_command_needs_compiled_pipeline() {
    let mut pass = Vec::new();
    let none = DrawResources { pipeline: None, view_binding: None, quads_bind_group: None };
    assert_eq!(SetQuadsPipeline::render(&none, &mut pass), RenderCommandResult::Failure);
    assert!(pass.is_empty());
    let some = DrawResources { pipeline: Some(3), ..none };
    assert_eq!(SetQuadsPipeline::render(&some, &mut pass), RenderCommandResult::Success);
    assert_eq!(pass, vec![PassCommand::SetPipeline { pipeline: 3 }]);
}

#[test]
fn quads_bind_group_command() {
    let mut pass = Vec::new();
    let none = DrawResources { pipeline: None, view_binding: None, quads_bind_group: None };
    assert_eq!(SetGpuQuadsBindGroup::<1>::render(&none, &mut pass), RenderCommandResult::Failure);
    let some = DrawResources { quads_bind_group: Some(GpuQuadsBindGroup { bind_group: 5 }), ..none };
    assert_eq!(SetGpuQuadsBindGroup::<1>::render(&some, &mut pass), RenderCommandResult::Success);
    assert_eq!(pass, vec![PassCommand::SetBindGroup { index: 1, bind_group: 5, dynamic_offset: None }]);
}

#[test]
fn draw_without_index_buffer_is_empty_success() {
    let mut pass = Vec::new();
    let gpu = GpuQuads::new();
    assert_eq!(DrawVertexPulledQuads::render(&gpu, &mut pass), RenderCommandResult::Success);
    assert!(pass.is_empty());
}

#[test]
fn pass_keeps_earlier_content_and_draws_each_item() {
    let mut phase = RenderPhase::new(4);
    let item = VpullPhaseItem { entity: 0, draw_function: DrawFunctionId::DrawQuadsVertexPulling };
    phase.add(item);
    phase.add(VpullPhaseItem { entity: 1, ..item });
    let phases = vec![phase];
    let res = DrawResources { pipeline: Some(2), view_binding: None, quads_bind_group: None };
    let mut node = VpullPassNode::new();
    assert_eq!(node.state, RenderState::Loading);
    node.update(Some(4), &phases);
    assert_eq!(node.state, RenderState::Ready);
    let cmds = node.run(Some(4), &phases, &res, &GpuQuads::new());
    assert_eq!(
        cmds,
        vec![
            PassCommand::BeginPass { view: 4, load: LoadOp::Load },
            PassCommand::SetPipeline { pipeline: 2 },
            PassCommand::SetPipeline { pipeline: 2 },
        ]
    );
    node.update(Some(5), &phases);
    assert_eq!(node.state, RenderState::Loading);
    assert!(node.run(Some(5), &phases, &res, &GpuQuads::new()).is_empty());
}

#[test]
fn main_node_has_no_subgraph() {
    let node = MainNode::default();
    assert_eq!(node.state, RenderState::Loading);
    assert_eq!(node.run(), Err(NodeRunError::MissingSubGraph));
}

#[test]
fn depth_textures_take_each_cameras_size() {
    let cams = vec![
        ExtractedCamera { entity: 1, target: 10, physical_size: Some(Extent { width: 800, height: 600 }) },
        ExtractedCamera { entity: 2, target: 20, physical_size: None },
        ExtractedCamera { entity: 3, target: 10, physical_size: Some(Extent { width: 1920, height: 1080 }) },
        ExtractedCamera { entity: 4, target: 10, physical_size: Some(Extent { width: 800, height: 600 }) },
    ];
    let t = prepare_depth_texture(&cams);
    assert_eq!(t.len(), 3);
    assert_eq!((t[0].entity, t[0].width, t[0].height, t[0].sample_count), (1, 800, 600, 4));
    assert_eq!((t[0].depth_or_array_layers, t[0].mip_level_count), (1, 1));
    assert_eq!(t[0].format, TextureFormat::Depth32Float);
    assert_eq!((t[1].entity, t[1].target, t[1].width, t[1].height), (3, 10, 1920, 1080));
    assert_ne!(t[0], t[1]);
    assert_eq!(t[2].entity, 4);
    assert_eq!((t[0].target, t[0].width, t[0].height), (t[2].target, t[2].width, t[2].height));
}

#[test]
fn pipeline_descriptor_values() {
    let d = VpullPipeline::descriptor(144);
    assert_eq!(d.view_layout.min_binding_size, 144);
    assert!(d.view_layout.has_dynamic_offset);
    assert_eq!(d.front_face, FrontFace::Ccw);
    assert_eq!(d.cull_mode, Some(Face::Back));
    assert_eq!(d.depth_compare, CompareFunction::Greater);
    assert_eq!(d.sample_count, 4);
    assert_eq!(d.topology, PrimitiveTopology::TriangleList);
    assert_eq!(d.depth_format, TextureFormat::Depth32Float);
    assert_eq!((d.vertex_entry, d.fragment_entry, d.vertex_buffer_count), ("vertex", "fragment", 0));
}

#[test]
fn plugin_runs_before_main_pass() {
    let mut s = RenderSchedule { systems: Vec::new(), passes: vec![PassId::MainPass] };
    assert_eq!(VpullPlugin.build(&mut s), Ok(()));
    assert_eq!(s.passes, vec![PassId::VpullPass, PassId::MainPass]);
    assert_eq!(s.systems.len(), 5);
}

#[test]
fn plugin_needs_main_pass() {
    let mut s = RenderSchedule { systems: Vec::new(), passes: Vec::new() };
    assert_eq!(VpullPlugin.build(&mut s), Err(ScheduleError::MissingMainPass));
    assert!(s.passes.is_empty() && s.systems.is_empty());
}

#[test]
fn palette_handed_out_once() {
    let mut p = Palette::default();
    assert_eq!(p.colors.len(), 5);
    assert_eq!(p.colors[0], Rgba8 { r: 0x64, g: 0x8F, b: 0xFF, a: 0xFF });
    let first = p.prepare().unwrap();
    assert_eq!(first[4], Rgba8 { r: 0xFF, g: 0xB0, b: 0x00, a: 0xFF });
    assert!(p.prepare().is_none());
}
