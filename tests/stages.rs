use doug_renderer::frame::FrameContext;
use doug_renderer::gpu_quads::{build_indices, GpuQuads};
use doug_renderer::phase_item::{DrawFunctionId, RenderPhase, VpullPhaseItem};
use doug_renderer::quad::{DRect, GpuQuad, Point};
use doug_renderer::render_command::{
    DrawResources, GpuQuadsBindGroup, IndexFormat, LoadOp, PassCommand, ViewBinding,
};
use doug_renderer::render_graph::VpullPassNode;
use doug_renderer::stages::{
    commit_upload, extract_quads, extract_quads_phase, prepare_quads, queue_quads, BatchedQuads,
};

fn pt(x: f32, y: f32) -> Point {
    Point { x: x.to_bits(), y: y.to_bits() }
}

fn rect(x0: f32, y0: f32, x1: f32, y1: f32, color: u32) -> DRect {
    DRect { p0: pt(x0, y0), p1: pt(x1, y1), stroke_width: 1.0f32.to_bits(), color }
}

fn ready_resources() -> DrawResources {
    DrawResources {
        pipeline: Some(7),
        view_binding: Some(ViewBinding { bind_group: 11, offset: 256 }),
        quads_bind_group: Some(GpuQuadsBindGroup { bind_group: 13 }),
    }
}

/// Collect, plan and settle one upload that the device accepts.
fn upload_accepted(gpu: &mut GpuQuads, batches: &mut Vec<BatchedQuads>) -> bool {
    let mut staged = extract_quads(batches);
    let next = prepare_quads(gpu, &staged).unwrap();
    let grew = next.is_some();
    commit_upload(gpu, &mut staged, batches, next, true);
    grew
}

#[test]
fn index_pattern_per_quad() {
    let idx = build_indices(3);
    assert_eq!(idx.len(), 18);
    for i in 0..3u32 {
        let b = 4 * i;
        let s = (6 * i) as usize;
        assert_eq!(&idx[s..s + 6], &[b + 2, b, b + 1, b + 1, b + 3, b + 2]);
    }
}

#[test]
fn empty_index_pattern() {
    assert!(build_indices(0).is_empty());
}

#[test]
fn record_layout_words() {
    let r = rect(0.0, 0.0, 100.0, 100.0, 2);
    let q = GpuQuad::from_rect(&r);
    assert_eq!(
        q.words(),
        [0.0f32.to_bits(), 0.0f32.to_bits(), 100.0f32.to_bits(), 100.0f32.to_bits(), 1.0f32.to_bits(), 2]
    );
    let q2: GpuQuad = r.into();
    assert_eq!(q, q2);
}

#[test]
fn collect_twice_stages_once() {
    let mut batches = vec![BatchedQuads::new(vec![rect(0.0, 0.0, 1.0, 1.0, 0), rect(2.0, 2.0, 3.0, 3.0, 1)])];
    let first = extract_quads(&mut batches);
    assert_eq!(first.len(), 1);
    assert_eq!(first[0].data.len(), 2);
    assert!(!first[0].prepared);
    assert!(batches[0].extracted);
    let second = extract_quads(&mut batches);
    assert_eq!(second.len(), 1);
    assert!(second[0].data.is_empty());
    assert!(second[0].prepared);
    assert_eq!(batches[0].data.len(), 2);
}

#[test]
fn upload_twice_appends_once() {
    let mut batches = vec![BatchedQuads::new(vec![rect(0.0, 0.0, 1.0, 1.0, 0)])];
    let mut staged = extract_quads(&mut batches);
    let mut gpu = GpuQuads::new();
    let next = prepare_quads(&gpu, &staged).unwrap();
    assert!(next.is_some());
    commit_upload(&mut gpu, &mut staged, &mut batches, next, true);
    assert_eq!(gpu.instances.len(), 1);
    assert!(batches[0].prepared);
    assert!(staged[0].prepared);
    let again = prepare_quads(&gpu, &staged).unwrap();
    assert!(again.is_none());
    commit_upload(&mut gpu, &mut staged, &mut batches, again, true);
    assert_eq!(gpu.instances.len(), 1);
    assert_eq!(gpu.index_count, 6);
}

#[test]
fn planning_changes_nothing() {
    let mut batches = vec![BatchedQuads::new(vec![rect(0.0, 0.0, 1.0, 1.0, 0)])];
    let staged = extract_quads(&mut batches);
    let gpu = GpuQuads::new();
    let next = prepare_quads(&gpu, &staged).unwrap().unwrap();
    assert_eq!(next.instances.len(), 1);
    assert_eq!(next.index_buffer.as_ref().unwrap(), &vec![2, 0, 1, 1, 3, 2]);
    assert!(gpu.instances.is_empty());
    assert!(!staged[0].prepared);
}

#[test]
fn refused_upload_is_retried_next_frame() {
    let r = rect(0.0, 0.0, 1.0, 1.0, 0);
    let mut batches = vec![BatchedQuads::new(vec![r])];
    let mut gpu = GpuQuads::new();
    let mut staged = extract_quads(&mut batches);
    let next = prepare_quads(&gpu, &staged).unwrap();
    commit_upload(&mut gpu, &mut staged, &mut batches, next, false);
    assert!(gpu.instances.is_empty());
    assert!(gpu.index_buffer.is_none());
    assert!(!batches[0].extracted);
    assert!(!batches[0].prepared);
    assert!(!staged[0].prepared);
    assert!(upload_accepted(&mut gpu, &mut batches));
    assert_eq!(gpu.instances, vec![GpuQuad::from_rect(&r)]);
    assert!(batches[0].extracted && batches[0].prepared);
}

#[test]
fn empty_batch_is_flagged_once() {
    let mut batches = vec![BatchedQuads::new(Vec::new())];
    let mut gpu = GpuQuads::new();
    assert!(!upload_accepted(&mut gpu, &mut batches));
    assert!(batches[0].extracted);
    assert!(batches[0].prepared);
    assert_eq!(gpu.index_count, 0);
}

#[test]
fn index_count_tracks_records() {
    let mut gpu = GpuQuads::new();
    assert_eq!(gpu.index_count, 0);
    assert!(gpu.index_buffer.is_none());
    let mut batches = vec![BatchedQuads::new(vec![rect(0.0, 0.0, 1.0, 1.0, 0); 5])];
    upload_accepted(&mut gpu, &mut batches);
    assert_eq!(gpu.index_count as usize, 6 * gpu.instances.len());
    assert_eq!(gpu.index_buffer.as_ref().unwrap().len(), gpu.index_count as usize);
}

#[test]
fn order_kept_across_uploads() {
    let a = rect(1.0, 1.0, 2.0, 2.0, 0);
    let b = rect(3.0, 3.0, 4.0, 4.0, 1);
    let c = rect(5.0, 5.0, 6.0, 6.0, 2);
    let mut ctx = FrameContext::new();
    ctx.add_batch(vec![a, b]);
    ctx.begin_frame();
    ctx.end_frame(true, None, &ready_resources());
    ctx.add_batch(vec![c]);
    ctx.begin_frame();
    ctx.end_frame(true, None, &ready_resources());
    assert_eq!(
        ctx.gpu_quads.instances,
        vec![GpuQuad::from_rect(&a), GpuQuad::from_rect(&b), GpuQuad::from_rect(&c)]
    );
    assert_eq!(ctx.gpu_quads.index_count, 18);
}

#[test]
fn no_view_no_work() {
    let mut batches = vec![BatchedQuads::new(vec![rect(0.0, 0.0, 1.0, 1.0, 0)])];
    let mut gpu = GpuQuads::new();
    upload_accepted(&mut gpu, &mut batches);
    let staged = extract_quads(&mut batches);
    let mut views = extract_quads_phase(None);
    queue_quads(&mut views, &staged);
    assert!(views.is_empty());
    let node = VpullPassNode::new();
    assert!(node.run(None, &views, &ready_resources(), &gpu).is_empty());
    assert!(node.run(Some(1), &views, &ready_resources(), &gpu).is_empty());
}

#[test]
fn scenario_one_frame_two_rects() {
    let mut ctx = FrameContext::new();
    ctx.add_batch(vec![rect(0.0, 0.0, 100.0, 100.0, 0), rect(50.0, 50.0, 150.0, 150.0, 2)]);
    let planned = ctx.begin_frame();
    let plan = planned.upload.unwrap().unwrap();
    assert_eq!(plan.index_count, 12);
    assert_eq!(plan.index_words, vec![2, 0, 1, 1, 3, 2, 6, 4, 5, 5, 7, 6]);
    assert_eq!(plan.instance_words.len(), 12);
    assert_eq!(plan.instance_words[2], 100.0f32.to_bits());
    assert_eq!(plan.instance_words[11], 2);
    let expected_bytes: Vec<u8> = plan.index_words.iter().flat_map(|w| w.to_ne_bytes()).collect();
    assert_eq!(plan.index_bytes, expected_bytes);
    let record_bytes: Vec<u8> = plan.instance_words.iter().flat_map(|w| w.to_ne_bytes()).collect();
    assert_eq!(plan.instance_bytes, record_bytes);
    assert_eq!(planned.palette_upload.unwrap().len(), 5);
    let out = ctx.end_frame(true, Some(9), &ready_resources());
    let g = &ctx.gpu_quads;
    assert_eq!(g.instances.len(), 2);
    assert_eq!(g.instances[0].p1, pt(100.0, 100.0));
    assert_eq!(g.instances[0].color, 0);
    assert_eq!(g.instances[1].p0, pt(50.0, 50.0));
    assert_eq!(g.instances[1].color, 2);
    assert_eq!(g.index_count, 12);
    assert_eq!(g.index_buffer.as_ref().unwrap(), &vec![2, 0, 1, 1, 3, 2, 6, 4, 5, 5, 7, 6]);
    assert_eq!(out.phases.len(), 1);
    assert_eq!(
        out.phases[0].items,
        vec![VpullPhaseItem { entity: 0, draw_function: DrawFunctionId::DrawQuadsVertexPulling }]
    );
    assert_eq!(
        out.commands,
        vec![
            PassCommand::BeginPass { view: 9, load: LoadOp::Load },
            PassCommand::SetPipeline { pipeline: 7 },
            PassCommand::SetBindGroup { index: 0, bind_group: 11, dynamic_offset: Some(256) },
            PassCommand::SetBindGroup { index: 1, bind_group: 13, dynamic_offset: None },
            PassCommand::SetIndexBuffer { offset: 0, format: IndexFormat::Uint32 },
            PassCommand::DrawIndexed { first_index: 0, index_end: 12, base_vertex: 0, first_instance: 0, instance_end: 1 },
        ]
    );
}

#[test]
fn scenario_two_batches_one_rebuild() {
    let mut ctx = FrameContext::new();
    ctx.add_batch(vec![rect(0.0, 0.0, 1.0, 1.0, 0)]);
    ctx.add_batch(vec![rect(2.0, 2.0, 3.0, 3.0, 1)]);
    let planned = ctx.begin_frame();
    let plan = planned.upload.unwrap().unwrap();
    assert_eq!(plan.index_count, 12);
    let out = ctx.end_frame(true, Some(1), &ready_resources());
    assert_eq!(ctx.gpu_quads.instances.len(), 2);
    assert_eq!(out.phases[0].items.len(), 2);
}

#[test]
fn scenario_processed_batch_many_frames() {
    let mut ctx = FrameContext::new();
    ctx.add_batch(vec![rect(0.0, 0.0, 1.0, 1.0, 0)]);
    ctx.begin_frame();
    ctx.end_frame(true, Some(1), &ready_resources());
    assert!(ctx.batches[0].extracted && ctx.batches[0].prepared);
    for _ in 0..1000 {
        let planned = ctx.begin_frame();
        assert!(matches!(planned.upload, Ok(None)));
        ctx.end_frame(true, Some(1), &ready_resources());
        assert_eq!(ctx.gpu_quads.instances.len(), 1);
    }
}

#[test]
fn empty_batch_draws_nothing_without_error() {
    let mut ctx = FrameContext::new();
    ctx.add_batch(Vec::new());
    let planned = ctx.begin_frame();
    assert!(matches!(planned.upload, Ok(None)));
    let out = ctx.end_frame(true, Some(1), &ready_resources());
    assert!(ctx.batches[0].prepared);
    assert_eq!(ctx.gpu_quads.index_count, 0);
    assert_eq!(
        out.commands,
        vec![
            PassCommand::BeginPass { view: 1, load: LoadOp::Load },
            PassCommand::SetPipeline { pipeline: 7 },
            PassCommand::SetBindGroup { index: 0, bind_group: 11, dynamic_offset: Some(256) },
            PassCommand::SetBindGroup { index: 1, bind_group: 13, dynamic_offset: None },
        ]
    );
}

#[test]
fn queue_adds_one_item_per_batch_per_view() {
    let mut views = vec![RenderPhase::new(1), RenderPhase::new(2)];
    let mut batches = vec![BatchedQuads::new(Vec::new()), BatchedQuads::new(Vec::new())];
    let staged = extract_quads(&mut batches);
    queue_quads(&mut views, &staged);
    for v in &views {
        assert_eq!(v.items.len(), 2);
        assert_eq!(v.items[1].entity(), 1);
        assert_eq!(v.items[0].sort_key(), 0);
    }
}
