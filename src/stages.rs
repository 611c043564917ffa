//! The per-frame stages: Collect copies new batches into staging records,
//! Upload appends staged records to the quad buffer, Submit queues draws.
use vstd::prelude::*;

use crate::gpu_quads::{records_of, GpuQuads, MAX_QUADS};
use crate::phase_item::{DrawFunctionId, RenderPhase, VpullPhaseItem};
use crate::quad::DRect;

verus! {

/// A batch of rectangles supplied by the scene, with its two one-shot flags:
/// `extracted` once Collect has copied it, `prepared` once its upload has
/// been accepted by the device. A failed upload clears `extracted` again, so
/// that the next frame copies the batch anew.
pub struct BatchedQuads {
    pub data: Vec<DRect>,
    pub extracted: bool,
    pub prepared: bool,
}

/// The staging record of one batch for one frame. A batch already copied in
/// an earlier frame gets an empty record marked `prepared`.
pub struct ExtractedQuads {
    pub data: Vec<DRect>,
    pub prepared: bool,
}

/// What Collect stages for a batch in its state before the call.
pub open spec fn staged_data(b: BatchedQuads) -> Seq<DRect> {
    if b.extracted {
        Seq::empty()
    } else {
        b.data@
    }
}

/// The rectangles that Upload has to append: those of every staging record
/// not yet prepared, record after record, each in its own order.
pub open spec fn pending_rects(staged: Seq<ExtractedQuads>) -> Seq<DRect>
    decreases staged.len(),
{
    if staged.len() == 0 {
        Seq::empty()
    } else {
        pending_rects(staged.drop_last()) + if staged.last().prepared {
            Seq::empty()
        } else {
            staged.last().data@
        }
    }
}

/// The items Submit adds to each view's queue: one per staging record.
pub open spec fn batch_items(n: nat) -> Seq<VpullPhaseItem> {
    Seq::new(
        n,
        |j: int| VpullPhaseItem { entity: j as u64, draw_function: DrawFunctionId::DrawQuadsVertexPulling },
    )
}

/// The relation between the batches before and after Collect and the
/// staging records it returns.
pub open spec fn collected(
    before: Seq<BatchedQuads>,
    after: Seq<BatchedQuads>,
    staged: Seq<ExtractedQuads>,
) -> bool {
    &&& after.len() == before.len()
    &&& staged.len() == before.len()
    &&& forall|j: int|
        #![trigger after[j]]
        #![trigger staged[j]]
        0 <= j < staged.len() ==> {
            &&& after[j].data == before[j].data
            &&& after[j].extracted
            &&& after[j].prepared == before[j].prepared
            &&& staged[j].data@ == staged_data(before[j])
            &&& staged[j].prepared == before[j].extracted
        }
}


/// What Upload plans for the buffer `gpu` and the staging records: nothing
/// when no rectangle is pending; the error when the pending rectangles would
/// take the buffer past `MAX_QUADS`; otherwise the next buffer, which holds
/// the earlier records followed by the pending ones, with its index buffer
/// rebuilt once for all of them.
pub open spec fn planned(
    gpu: GpuQuads,
    staged: Seq<ExtractedQuads>,
    r: Result<Option<GpuQuads>, UploadError>,
) -> bool {
    let pending = pending_rects(staged);
    &&& pending.len() == 0 ==> r == Ok::<Option<GpuQuads>, UploadError>(None)
    &&& gpu.instances@.len() + pending.len() > MAX_QUADS ==> r == Err::<
        Option<GpuQuads>,
        UploadError,
    >(UploadError::TooManyQuads)
    &&& pending.len() > 0 && gpu.instances@.len() + pending.len() <= MAX_QUADS ==> {
        &&& r matches Ok(Some(next)) && next.wf() && next.index_buffer.is_some()
            && next.instances@ == gpu.instances@ + records_of(pending)
    }
}

/// The buffer a plan installs, if any.
pub open spec fn planned_buffer(r: Result<Option<GpuQuads>, UploadError>) -> Option<GpuQuads> {
    match r {
        Ok(next) => next,
        Err(_) => None,
    }
}

/// The relation between the state before and after the upload is settled.
/// Accepted: the planned buffer (if any) is installed, and every staging
/// record, empty ones included, is marked prepared along with its batch.
/// Refused: the buffer and the staging records stay, and every batch whose
/// record was pending is marked not extracted, so that it is copied and
/// uploaded again next frame.
pub open spec fn committed(
    gpu_before: GpuQuads,
    staged_before: Seq<ExtractedQuads>,
    batches_before: Seq<BatchedQuads>,
    next: Option<GpuQuads>,
    accepted: bool,
    gpu_after: GpuQuads,
    staged_after: Seq<ExtractedQuads>,
    batches_after: Seq<BatchedQuads>,
) -> bool {
    &&& gpu_after == if accepted && next.is_some() {
        next.unwrap()
    } else {
        gpu_before
    }
    &&& staged_after.len() == staged_before.len()
    &&& batches_after.len() == batches_before.len()
    &&& forall|j: int|
        #![trigger staged_after[j]]
        #![trigger batches_after[j]]
        0 <= j < staged_before.len() ==> {
            &&& staged_after[j].data == staged_before[j].data
            &&& batches_after[j].data == batches_before[j].data
            &&& accepted ==> {
                &&& staged_after[j].prepared
                &&& batches_after[j].prepared == (batches_before[j].prepared
                    || !staged_before[j].prepared)
                &&& batches_after[j].extracted == batches_before[j].extracted
            }
            &&& !accepted ==> {
                &&& staged_after[j].prepared == staged_before[j].prepared
                &&& batches_after[j].prepared == batches_before[j].prepared
                &&& batches_after[j].extracted == (batches_before[j].extracted
                    && staged_before[j].prepared)
            }
        }
}

/// The relation between the view queues before and after Submit, for `n`
/// staging records.
pub open spec fn queued(before: Seq<RenderPhase>, after: Seq<RenderPhase>, n: nat) -> bool {
    &&& after.len() == before.len()
    &&& forall|v: int|
        #![trigger after[v]]
        0 <= v < before.len() ==> {
            &&& after[v].view == before[v].view
            &&& after[v].items@ == before[v].items@ + batch_items(n)
        }
}

/// Why Upload appended nothing.
#[derive(Clone, Copy, Debug, PartialEq, Eq, Structural)]
pub enum UploadError {
    /// The pending records would take the buffer past `MAX_QUADS`.
    TooManyQuads,
}

impl BatchedQuads {
    pub fn new(data: Vec<DRect>) -> (r: BatchedQuads)
        ensures
            r.data@ == data@,
            !r.extracted,
            !r.prepared,
    {
        BatchedQuads { data, extracted: false, prepared: false }
    }
}

fn copy_rects(src: &Vec<DRect>) -> (r: Vec<DRect>)
    ensures
        r@ == src@,
{
    let mut out: Vec<DRect> = Vec::with_capacity(src.len());
    let mut i: usize = 0;
    while i < src.len()
        invariant
            i <= src.len(),
            out@ == src@.subrange(0, i as int),
        decreases src.len() - i,
    {
        out.push(src[i]);
        assert(out@ =~= src@.subrange(0, i + 1));
        i = i + 1;
    }
    assert(out@ =~= src@);
    out
}

/// Collect: one staging record per batch, in batch order. A batch not yet
/// extracted is copied and marked extracted; one already extracted yields an
/// empty record marked prepared. Nothing but the `extracted` flags changes.
pub fn extract_quads(batches: &mut Vec<BatchedQuads>) -> (r: Vec<ExtractedQuads>)
    ensures
        collected(old(batches)@, final(batches)@, r@),
{
    let mut out: Vec<ExtractedQuads> = Vec::with_capacity(batches.len());
    let mut j: usize = 0;
    while j < batches.len()
        invariant
            j <= batches@.len(),
            batches@.len() == old(batches)@.len(),
            out@.len() == j,
            forall|k: int|
                #![trigger batches@[k]]
                0 <= k < j ==> {
                    &&& batches@[k].data == old(batches)@[k].data
                    &&& batches@[k].extracted
                    &&& batches@[k].prepared == old(batches)@[k].prepared
                    &&& out@[k].data@ == staged_data(old(batches)@[k])
                    &&& out@[k].prepared == old(batches)@[k].extracted
                },
            forall|k: int| j <= k < batches@.len() ==> #[trigger] batches@[k] == old(batches)@[k],
        decreases batches@.len() - j,
    {
        if !batches[j].extracted {
            let data = copy_rects(&batches[j].data);
            out.push(ExtractedQuads { data, prepared: false });
            batches[j].extracted = true;
        } else {
            out.push(ExtractedQuads { data: Vec::new(), prepared: true });
        }
        j = j + 1;
    }
    out
}

/// The rectangles pending in a prefix are never more than in the whole.
proof fn lemma_pending_prefix(staged: Seq<ExtractedQuads>, j: int)
    requires
        0 <= j <= staged.len(),
    ensures
        pending_rects(staged.subrange(0, j)).len() <= pending_rects(staged).len(),
    decreases staged.len() - j,
{
    if j < staged.len() {
        lemma_pending_prefix(staged, j + 1);
        assert(staged.subrange(0, j + 1).drop_last() =~= staged.subrange(0, j));
    } else {
        assert(staged.subrange(0, j) =~= staged);
    }
}


/// Upload, first half: plans the next buffer without changing anything.
/// When it returns `Ok(Some(next))` the caller creates both device buffers
/// from `next.upload_plan()`, rebuilds the binding set over them, and hands
/// the outcome to `commit_upload`.
pub fn prepare_quads(gpu_quads: &GpuQuads, staged: &Vec<ExtractedQuads>) -> (r: Result<
    Option<GpuQuads>,
    UploadError,
>)
    requires
        gpu_quads.wf(),
    ensures
        planned(*gpu_quads, staged@, r),
{
    let start_len = gpu_quads.instances.len();
    // Count what is pending before building anything.
    let mut count: usize = 0;
    let mut j: usize = 0;
    while j < staged.len()
        invariant
            j <= staged@.len(),
            gpu_quads.wf(),
            start_len == gpu_quads.instances@.len(),
            start_len <= MAX_QUADS,
            count == pending_rects(staged@.subrange(0, j as int)).len(),
            start_len + count <= MAX_QUADS,
        decreases staged@.len() - j,
    {
        assert(staged@.subrange(0, j + 1).drop_last() =~= staged@.subrange(0, j as int));
        if !staged[j].prepared {
            let n = staged[j].data.len();
            if n > MAX_QUADS - start_len - count {
                proof {
                    lemma_pending_prefix(staged@, j + 1);
                }
                return Err(UploadError::TooManyQuads);
            }
            count = count + n;
        }
        j = j + 1;
    }
    assert(staged@.subrange(0, j as int) =~= staged@);
    if count == 0 {
        return Ok(None);
    }
    // Append every pending record to a copy, in order.
    let mut next = gpu_quads.duplicate();
    let mut j: usize = 0;
    while j < staged.len()
        invariant
            j <= staged@.len(),
            start_len == gpu_quads.instances@.len(),
            start_len + pending_rects(staged@).len() <= MAX_QUADS,
            next.instances@ == gpu_quads.instances@ + records_of(
                pending_rects(staged@.subrange(0, j as int)),
            ),
        decreases staged@.len() - j,
    {
        assert(staged@.subrange(0, j + 1).drop_last() =~= staged@.subrange(0, j as int));
        proof {
            lemma_pending_prefix(staged@, j + 1);
        }
        assert(pending_rects(staged@.subrange(0, j + 1)) == pending_rects(
            staged@.subrange(0, j as int),
        ) + if staged@[j as int].prepared {
            Seq::empty()
        } else {
            staged@[j as int].data@
        });
        if !staged[j].prepared {
            next.push_rects(&staged[j].data);
        }
        assert(records_of(pending_rects(staged@.subrange(0, j + 1))) =~= records_of(
            pending_rects(staged@.subrange(0, j as int)),
        ) + records_of(
            if staged@[j as int].prepared {
                Seq::empty()
            } else {
                staged@[j as int].data@
            },
        ));
        j = j + 1;
    }
    assert(staged@.subrange(0, j as int) =~= staged@);
    next.rebuild_indices();
    Ok(Some(next))
}

/// Upload, second half: settles the upload with the device's answer (see
/// `committed`). With nothing planned, `accepted` still flags the staging
/// records, so an empty batch is uploaded once like any other.
pub fn commit_upload(
    gpu_quads: &mut GpuQuads,
    staged: &mut Vec<ExtractedQuads>,
    batches: &mut Vec<BatchedQuads>,
    next: Option<GpuQuads>,
    accepted: bool,
)
    requires
        old(gpu_quads).wf(),
        old(staged)@.len() == old(batches)@.len(),
        next matches Some(n) ==> n.wf(),
    ensures
        final(gpu_quads).wf(),
        committed(
            *old(gpu_quads),
            old(staged)@,
            old(batches)@,
            next,
            accepted,
            *final(gpu_quads),
            final(staged)@,
            final(batches)@,
        ),
{
    let ghost old_staged = staged@;
    let mut j: usize = 0;
    while j < staged.len()
        invariant
            j <= staged@.len(),
            staged@.len() == old_staged.len(),
            old_staged == old(staged)@,
            batches@.len() == old(batches)@.len(),
            old_staged.len() == old(batches)@.len(),
            *gpu_quads == *old(gpu_quads),
            forall|k: int|
                #![trigger staged@[k]]
                #![trigger batches@[k]]
                0 <= k < j ==> {
                    &&& staged@[k].data == old_staged[k].data
                    &&& batches@[k].data == old(batches)@[k].data
                    &&& accepted ==> {
                        &&& staged@[k].prepared
                        &&& batches@[k].prepared == (old(batches)@[k].prepared
                            || !old_staged[k].prepared)
                        &&& batches@[k].extracted == old(batches)@[k].extracted
                    }
                    &&& !accepted ==> {
                        &&& staged@[k].prepared == old_staged[k].prepared
                        &&& batches@[k].prepared == old(batches)@[k].prepared
                        &&& batches@[k].extracted == (old(batches)@[k].extracted
                            && old_staged[k].prepared)
                    }
                },
            forall|k: int| j <= k < staged@.len() ==> #[trigger] staged@[k] == old_staged[k],
            forall|k: int| j <= k < batches@.len() ==> #[trigger] batches@[k] == old(batches)@[k],
        decreases staged@.len() - j,
    {
        let ghost prev_staged = staged@;
        let ghost prev_batches = batches@;
        if !staged[j].prepared {
            if accepted {
                staged[j].prepared = true;
                batches[j].prepared = true;
            } else {
                batches[j].extracted = false;
            }
        }
        assert forall|k: int| 0 <= k < staged@.len() && k != j implies staged@[k] == prev_staged[k]
            && batches@[k] == prev_batches[k] by {}
        j = j + 1;
    }
    if accepted {
        if let Some(n) = next {
            *gpu_quads = n;
        }
    }
}


/// One empty draw queue for the active view, or none without one.
pub fn extract_quads_phase(active_view: Option<u64>) -> (r: Vec<RenderPhase>)
    ensures
        match active_view {
            Some(v) => r@.len() == 1 && r@[0].view == v && r@[0].items@.len() == 0,
            None => r@.len() == 0,
        },
{
    let mut phases: Vec<RenderPhase> = Vec::new();
    if let Some(v) = active_view {
        phases.push(RenderPhase::new(v));
    }
    phases
}

/// Submit: every view's queue gains one item per staging record, in record
/// order, all with the one draw procedure. With no views nothing is queued.
pub fn queue_quads(views: &mut Vec<RenderPhase>, staged: &Vec<ExtractedQuads>)
    ensures
        queued(old(views)@, final(views)@, staged@.len() as nat),
{
    let mut v: usize = 0;
    while v < views.len()
        invariant
            v <= views@.len(),
            views@.len() == old(views)@.len(),
            forall|k: int|
                #![trigger views@[k]]
                0 <= k < v ==> {
                    &&& views@[k].view == old(views)@[k].view
                    &&& views@[k].items@ == old(views)@[k].items@ + batch_items(
                        staged@.len() as nat,
                    )
                },
            forall|k: int| v <= k < views@.len() ==> #[trigger] views@[k] == old(views)@[k],
        decreases views@.len() - v,
    {
        let ghost before = views@;
        let mut e: usize = 0;
        while e < staged.len()
            invariant
                v < views@.len(),
                views@.len() == old(views)@.len(),
                e <= staged@.len(),
                views@[v as int].view == old(views)@[v as int].view,
                views@[v as int].items@ == old(views)@[v as int].items@ + batch_items(e as nat),
                forall|k: int| 0 <= k < views@.len() && k != v ==> #[trigger] views@[k] == before[k],
            decreases staged@.len() - e,
        {
            views[v].add(
                VpullPhaseItem { entity: e as u64, draw_function: DrawFunctionId::DrawQuadsVertexPulling },
            );
            assert(batch_items((e + 1) as nat) =~= batch_items(e as nat).push(
                VpullPhaseItem { entity: e as u64, draw_function: DrawFunctionId::DrawQuadsVertexPulling },
            ));
            e = e + 1;
        }
        v = v + 1;
    }
}

} // verus!

verus! {

/// Once every staging record is prepared, nothing is pending.
proof fn lemma_all_prepared_none_pending(staged: Seq<ExtractedQuads>)
    requires
        forall|j: int| 0 <= j < staged.len() ==> (#[trigger] staged[j]).prepared,
    ensures
        pending_rects(staged).len() == 0,
    decreases staged.len(),
{
    if staged.len() > 0 {
        let rest = staged.drop_last();
        assert forall|j: int| 0 <= j < rest.len() implies (#[trigger] rest[j]).prepared by {
            assert(rest[j] == staged[j]);
        }
        lemma_all_prepared_none_pending(rest);
        assert(staged.last() == staged[staged.len() - 1]);
    }
}

/// Collecting twice stages nothing new: every record of the second call is
/// empty and marked prepared, and every batch keeps its rectangles.
pub proof fn lemma_collect_twice(
    b0: Seq<BatchedQuads>,
    b1: Seq<BatchedQuads>,
    b2: Seq<BatchedQuads>,
    r1: Seq<ExtractedQuads>,
    r2: Seq<ExtractedQuads>,
)
    requires
        collected(b0, b1, r1),
        collected(b1, b2, r2),
    ensures
        r2.len() == b0.len(),
        forall|j: int|
            0 <= j < r2.len() ==> (#[trigger] r2[j]).data@.len() == 0 && r2[j].prepared,
        forall|j: int| 0 <= j < b2.len() ==> (#[trigger] b2[j]).data == b0[j].data,
{
    assert forall|j: int| 0 <= j < r2.len() implies (#[trigger] r2[j]).data@.len() == 0
        && r2[j].prepared by {
        assert(b1[j].extracted);
        assert(b2[j].extracted);
    }
    assert forall|j: int| 0 <= j < b2.len() implies (#[trigger] b2[j]).data == b0[j].data by {
        assert(b1[j].data == b0[j].data);
    }
}


/// Uploading the same staging records twice appends nothing the second
/// time: once an upload is accepted, planning again over the same records
/// plans nothing, and settling that plan leaves the buffer as it is.
pub proof fn lemma_upload_twice(
    g0: GpuQuads,
    s0: Seq<ExtractedQuads>,
    b0: Seq<BatchedQuads>,
    r1: Result<Option<GpuQuads>, UploadError>,
    g1: GpuQuads,
    s1: Seq<ExtractedQuads>,
    b1: Seq<BatchedQuads>,
    r2: Result<Option<GpuQuads>, UploadError>,
    accepted: bool,
    g2: GpuQuads,
    s2: Seq<ExtractedQuads>,
    b2: Seq<BatchedQuads>,
)
    requires
        planned(g0, s0, r1),
        committed(g0, s0, b0, planned_buffer(r1), true, g1, s1, b1),
        planned(g1, s1, r2),
        committed(g1, s1, b1, planned_buffer(r2), accepted, g2, s2, b2),
    ensures
        r2 == Ok::<Option<GpuQuads>, UploadError>(None),
        g2 == g1,
{
    assert forall|j: int| 0 <= j < s1.len() implies (#[trigger] s1[j]).prepared by {}
    lemma_all_prepared_none_pending(s1);
}

/// Records keep their order across uploads: after two accepted uploads the
/// buffer holds its earlier records, then the first upload's pending
/// rectangles, then the second's, each in staging-record order and, within
/// a record, in the batch's own order.
pub proof fn lemma_upload_order(
    g0: GpuQuads,
    sa: Seq<ExtractedQuads>,
    ba: Seq<BatchedQuads>,
    r1: Result<Option<GpuQuads>, UploadError>,
    g1: GpuQuads,
    sa1: Seq<ExtractedQuads>,
    ba1: Seq<BatchedQuads>,
    sb: Seq<ExtractedQuads>,
    bb: Seq<BatchedQuads>,
    r2: Result<Option<GpuQuads>, UploadError>,
    g2: GpuQuads,
    sb1: Seq<ExtractedQuads>,
    bb1: Seq<BatchedQuads>,
)
    requires
        planned(g0, sa, r1),
        r1.is_ok(),
        committed(g0, sa, ba, planned_buffer(r1), true, g1, sa1, ba1),
        planned(g1, sb, r2),
        r2.is_ok(),
        committed(g1, sb, bb, planned_buffer(r2), true, g2, sb1, bb1),
    ensures
        g2.instances@ == g0.instances@ + records_of(pending_rects(sa)) + records_of(
            pending_rects(sb),
        ),
{
    if pending_rects(sa).len() == 0 {
        assert(records_of(pending_rects(sa)) =~= Seq::empty());
        assert(g0.instances@ + records_of(pending_rects(sa)) =~= g0.instances@);
    }
    if pending_rects(sb).len() == 0 {
        assert(records_of(pending_rects(sb)) =~= Seq::empty());
        assert(g1.instances@ + records_of(pending_rects(sb)) =~= g1.instances@);
    }
}

} // verus!
