//! One frame of the pipeline over state kept between frames, in two halves
//! around the device's work: Collect and planning the upload; then settling
//! the upload with the device's answer, Submit, and the pass.
use vstd::prelude::*;

use crate::gpu_quads::{plan_of, GpuQuads, UploadPlan};
use crate::palette::{Palette, Rgba8};
use crate::phase_item::RenderPhase;
use crate::quad::DRect;
use crate::render_command::{DrawResources, PassCommand};
use crate::render_graph::{pass_commands, VpullPassNode};
use crate::stages::{
    batch_items, collected, commit_upload, committed, extract_quads, extract_quads_phase,
    pending_rects, planned, prepare_quads, queue_quads, staged_data, BatchedQuads, ExtractedQuads,
    UploadError,
};

verus! {

/// The rectangles of every batch not yet extracted, batch after batch.
pub open spec fn fresh_rects(batches: Seq<BatchedQuads>) -> Seq<DRect>
    decreases batches.len(),
{
    if batches.len() == 0 {
        Seq::empty()
    } else {
        fresh_rects(batches.drop_last()) + staged_data(batches.last())
    }
}

/// What Collect stages is exactly what was fresh.
pub proof fn lemma_collected_pending(
    before: Seq<BatchedQuads>,
    after: Seq<BatchedQuads>,
    staged: Seq<ExtractedQuads>,
)
    requires
        collected(before, after, staged),
    ensures
        pending_rects(staged) == fresh_rects(before),
{
    lemma_collected_pending_prefix(before, after, staged, staged.len() as int);
    assert(staged.subrange(0, staged.len() as int) =~= staged);
    assert(before.subrange(0, before.len() as int) =~= before);
}

proof fn lemma_collected_pending_prefix(
    before: Seq<BatchedQuads>,
    after: Seq<BatchedQuads>,
    staged: Seq<ExtractedQuads>,
    n: int,
)
    requires
        collected(before, after, staged),
        0 <= n <= staged.len(),
    ensures
        pending_rects(staged.subrange(0, n)) == fresh_rects(before.subrange(0, n)),
    decreases n,
{
    if n > 0 {
        lemma_collected_pending_prefix(before, after, staged, n - 1);
        assert(staged.subrange(0, n).drop_last() =~= staged.subrange(0, n - 1));
        assert(before.subrange(0, n).drop_last() =~= before.subrange(0, n - 1));
        assert(after[n - 1].extracted);
        if staged[n - 1].prepared {
            assert(staged_data(before[n - 1]) =~= Seq::<DRect>::empty());
        }
    } else {
        assert(staged.subrange(0, 0) =~= Seq::<ExtractedQuads>::empty());
        assert(before.subrange(0, 0) =~= Seq::<BatchedQuads>::empty());
    }
}

/// The state kept between frames: the registered batches, the quad buffer
/// and the palette; and, between the two halves of a frame, the staging
/// records and the planned buffer (`refused` when the plan was refused).
pub struct FrameContext {
    pub batches: Vec<BatchedQuads>,
    pub gpu_quads: GpuQuads,
    pub palette: Palette,
    pub staged: Vec<ExtractedQuads>,
    pub next_quads: Option<GpuQuads>,
    pub refused: bool,
}

/// What the first half of a frame hands to the device: the buffers to
/// upload (after which the binding set is rebuilt over them), and the
/// palette colors on the first frame.
pub struct FramePlan {
    pub upload: Result<Option<UploadPlan>, UploadError>,
    pub palette_upload: Option<Vec<Rgba8>>,
}

/// What the second half of a frame produced: the view queues and the
/// commands the pass recorded.
pub struct FrameOutput {
    pub phases: Vec<RenderPhase>,
    pub commands: Vec<PassCommand>,
}

impl FrameContext {
    pub open spec fn wf(&self) -> bool {
        &&& self.gpu_quads.wf()
        &&& self.staged@.len() == self.batches@.len()
        &&& self.next_quads matches Some(n) ==> n.wf()
        &&& self.refused ==> self.next_quads.is_none()
    }

    /// The upload planned by the first half of the frame.
    pub open spec fn planned_result(&self) -> Result<Option<GpuQuads>, UploadError> {
        if self.refused {
            Err(UploadError::TooManyQuads)
        } else {
            Ok(self.next_quads)
        }
    }

    pub fn new() -> (r: FrameContext)
        ensures
            r.wf(),
            r.batches@.len() == 0,
            r.gpu_quads.instances@.len() == 0,
            r.gpu_quads.index_buffer.is_none(),
            r.palette.colors@ == crate::palette::default_colors(),
            !r.palette.prepared,
    {
        FrameContext {
            batches: Vec::new(),
            gpu_quads: GpuQuads::new(),
            palette: Palette::default(),
            staged: Vec::new(),
            next_quads: None,
            refused: false,
        }
    }

    /// Registers a new batch; it is picked up by the next frame.
    pub fn add_batch(&mut self, data: Vec<DRect>)
        requires
            old(self).wf(),
        ensures
            final(self).wf(),
            final(self).gpu_quads == old(self).gpu_quads,
            final(self).palette == old(self).palette,
            final(self).next_quads == old(self).next_quads,
            final(self).refused == old(self).refused,
            final(self).batches@.len() == old(self).batches@.len() + 1,
            final(self).staged@.len() == old(self).staged@.len() + 1,
            forall|j: int|
                0 <= j < old(self).batches@.len() ==> #[trigger] final(self).batches@[j]
                    == old(self).batches@[j] && final(self).staged@[j] == old(self).staged@[j],
            final(self).batches@.last().data@ == data@,
            !final(self).batches@.last().extracted,
            !final(self).batches@.last().prepared,
            final(self).staged@.last().data@.len() == 0,
            final(self).staged@.last().prepared,
    {
        self.batches.push(BatchedQuads::new(data));
        self.staged.push(ExtractedQuads { data: Vec::new(), prepared: true });
    }

    /// First half of a frame: Collect, then plan the upload (see
    /// `collected` and `planned`). The rectangles to append are those of
    /// every batch not yet extracted, in batch order. Nothing reaches the
    /// buffer until `end_frame`.
    pub fn begin_frame(&mut self) -> (r: FramePlan)
        requires
            old(self).wf(),
        ensures
            final(self).wf(),
            collected(old(self).batches@, final(self).batches@, final(self).staged@),
            pending_rects(final(self).staged@) == fresh_rects(old(self).batches@),
            planned(old(self).gpu_quads, final(self).staged@, final(self).planned_result()),
            final(self).gpu_quads == old(self).gpu_quads,
            match final(self).next_quads {
                Some(n) => r.upload matches Ok(Some(plan)) && plan_of(n, plan),
                None => r.upload == if final(self).refused {
                    Err::<Option<UploadPlan>, UploadError>(UploadError::TooManyQuads)
                } else {
                    Ok::<Option<UploadPlan>, UploadError>(None)
                },
            },
            final(self).palette.colors@ == old(self).palette.colors@,
            final(self).palette.prepared,
            match r.palette_upload {
                Some(c) => !old(self).palette.prepared && c@ == old(self).palette.colors@,
                None => old(self).palette.prepared,
            },
    {
        let ghost b0 = self.batches@;
        let staged = extract_quads(&mut self.batches);
        proof {
            lemma_collected_pending(b0, self.batches@, staged@);
        }
        let planned = prepare_quads(&self.gpu_quads, &staged);
        self.staged = staged;
        let upload = match planned {
            Ok(Some(next)) => {
                let plan = next.upload_plan();
                self.next_quads = Some(next);
                self.refused = false;
                Ok(Some(plan))
            },
            Ok(None) => {
                self.next_quads = None;
                self.refused = false;
                Ok(None)
            },
            Err(e) => {
                self.next_quads = None;
                self.refused = true;
                Err(e)
            },
        };
        let palette_upload = self.palette.prepare();
        FramePlan { upload, palette_upload }
    }

    /// Second half of a frame, once the device has answered: settle the
    /// upload (see `committed`; a refused plan counts as not accepted, so
    /// its batches are tried again next frame), then queue one item per
    /// batch on the active view and record the pass.
    pub fn end_frame(&mut self, device_accepted: bool, active_view: Option<u64>, res: &DrawResources) -> (r:
        FrameOutput)
        requires
            old(self).wf(),
        ensures
            final(self).wf(),
            committed(
                old(self).gpu_quads,
                old(self).staged@,
                old(self).batches@,
                old(self).next_quads,
                device_accepted && !old(self).refused,
                final(self).gpu_quads,
                final(self).staged@,
                final(self).batches@,
            ),
            final(self).next_quads.is_none(),
            !final(self).refused,
            final(self).palette == old(self).palette,
            match active_view {
                Some(v) => r.phases@.len() == 1 && r.phases@[0].view == v
                    && r.phases@[0].items@ == batch_items(old(self).batches@.len() as nat),
                None => r.phases@.len() == 0,
            },
            r.commands@ == pass_commands(active_view, r.phases@, *res, final(self).gpu_quads),
    {
        let accepted = device_accepted && !self.refused;
        let next = self.next_quads.take();
        self.refused = false;
        commit_upload(&mut self.gpu_quads, &mut self.staged, &mut self.batches, next, accepted);
        let mut phases = extract_quads_phase(active_view);
        let ghost phases_before = phases@;
        queue_quads(&mut phases, &self.staged);
        proof {
            if active_view.is_some() {
                assert(phases@[0].view == phases_before[0].view);
                assert(phases@[0].items@ =~= batch_items(old(self).batches@.len() as nat));
            }
        }
        let node = VpullPassNode::new();
        let commands = node.run(active_view, &phases, res, &self.gpu_quads);
        FrameOutput { phases, commands }
    }
}

} // verus!
