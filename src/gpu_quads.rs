//! The append-only buffer of quad records and the index buffer derived from it.
use vstd::prelude::*;

use crate::quad::{DRect, GpuQuad};

verus! {

/// Most quads the buffer can hold: the index count `6 * n` must fit in a
/// `u32`, and so must the largest index `4 * n - 1`.
pub const MAX_QUADS: usize = 715827882;

/// Offset of corner `k` (0..6) in the per-quad index pattern `[2, 0, 1, 1, 3, 2]`.
///
/// With corners (0,0), (1,0), (0,1), (1,1) numbered 0..4, the two triangles
/// are (2, 0, 1) and (1, 3, 2), which share one winding.
pub open spec fn corner_offset(k: int) -> int {
    if k == 0 {
        2
    } else if k == 1 {
        0
    } else if k == 2 {
        1
    } else if k == 3 {
        1
    } else if k == 4 {
        3
    } else {
        2
    }
}

/// The six indices of quad `i`, whose four vertices start at `4 * i`.
pub open spec fn quad_indices(i: nat) -> Seq<u32> {
    Seq::new(6, |k: int| (4 * i + corner_offset(k)) as u32)
}

/// The full index buffer for `n` quads: each quad's six indices, in quad order.
pub open spec fn index_pattern(n: nat) -> Seq<u32>
    decreases n,
{
    if n == 0 {
        Seq::empty()
    } else {
        index_pattern((n - 1) as nat) + quad_indices((n - 1) as nat)
    }
}

/// The records of a sequence of rectangles, in the same order.
pub open spec fn records_of(rects: Seq<DRect>) -> Seq<GpuQuad> {
    rects.map_values(|r: DRect| GpuQuad::spec_from(r))
}

/// The words of a sequence of records, record after record.
pub open spec fn words_of(quads: Seq<GpuQuad>) -> Seq<u32>
    decreases quads.len(),
{
    if quads.len() == 0 {
        Seq::empty()
    } else {
        words_of(quads.drop_last()) + quads.last().spec_words()
    }
}

/// The quad buffer: records in upload order, the index buffer that draws them
/// (absent until the first upload) and the number of indices to draw.
pub struct GpuQuads {
    pub index_buffer: Option<Vec<u32>>,
    pub index_count: u32,
    pub instances: Vec<GpuQuad>,
}

impl GpuQuads {
    /// The index count matches the records, the index buffer (once present)
    /// holds exactly the pattern for them, and the records stay within
    /// `MAX_QUADS`.
    pub open spec fn wf(&self) -> bool {
        &&& self.instances.len() <= MAX_QUADS
        &&& self.index_count == 6 * self.instances.len()
        &&& match self.index_buffer {
            Some(b) => b@ == index_pattern(self.instances.len() as nat),
            None => self.instances.len() == 0,
        }
    }

    /// Length of the index buffer; zero while there is none.
    pub open spec fn index_buffer_len(&self) -> nat {
        match self.index_buffer {
            Some(b) => b.len() as nat,
            None => 0,
        }
    }

    pub fn new() -> (r: GpuQuads)
        ensures
            r.wf(),
            r.instances@.len() == 0,
            r.index_buffer.is_none(),
            r.index_count == 0,
    {
        GpuQuads { index_buffer: None, index_count: 0, instances: Vec::new() }
    }

    /// Appends the record of each rectangle, in order, without touching the
    /// index buffer.
    pub(crate) fn push_rects(&mut self, rects: &Vec<DRect>)
        requires
            old(self).instances.len() + rects.len() <= MAX_QUADS,
        ensures
            final(self).instances@ == old(self).instances@ + records_of(rects@),
            final(self).index_buffer == old(self).index_buffer,
            final(self).index_count == old(self).index_count,
    {
        let ghost start = self.instances@;
        let mut i: usize = 0;
        while i < rects.len()
            invariant
                i <= rects.len(),
                self.instances@ == start + records_of(rects@.subrange(0, i as int)),
                self.index_buffer == old(self).index_buffer,
                self.index_count == old(self).index_count,
            decreases rects.len() - i,
        {
            let q = GpuQuad::from_rect(&rects[i]);
            self.instances.push(q);
            assert(rects@.subrange(0, i + 1) == rects@.subrange(0, i as int).push(rects@[i as int]));
            assert(records_of(rects@.subrange(0, i + 1)) =~= records_of(rects@.subrange(0, i as int)).push(q));
            i = i + 1;
        }
        assert(rects@.subrange(0, i as int) =~= rects@);
    }

    /// Regenerates the whole index buffer and the index count from the records.
    pub fn rebuild_indices(&mut self)
        requires
            old(self).instances.len() <= MAX_QUADS,
        ensures
            final(self).wf(),
            final(self).instances == old(self).instances,
            final(self).index_buffer.is_some(),
    {
        let n = self.instances.len();
        let indices = build_indices(n);
        self.index_count = (n * 6) as u32;
        self.index_buffer = Some(indices);
    }

    /// The records as words in buffer order, ready to be cast to bytes.
    pub fn instance_words(&self) -> (r: Vec<u32>)
        requires
            self.instances.len() <= MAX_QUADS,
        ensures
            r@ == words_of(self.instances@),
    {
        let mut out: Vec<u32> = Vec::new();
        let mut i: usize = 0;
        while i < self.instances.len()
            invariant
                i <= self.instances.len(),
                self.instances.len() <= MAX_QUADS,
                out@ == words_of(self.instances@.subrange(0, i as int)),
            decreases self.instances.len() - i,
        {
            let w = self.instances[i].words();
            let mut k: usize = 0;
            let ghost before = out@;
            while k < 6
                invariant
                    k <= 6,
                    w@ == self.instances@[i as int].spec_words(),
                    out@ == before + w@.subrange(0, k as int),
                decreases 6 - k,
            {
                out.push(w[k]);
                assert(w@.subrange(0, k + 1) =~= w@.subrange(0, k as int).push(w@[k as int]));
                k = k + 1;
            }
            assert(w@.subrange(0, 6) =~= w@);
            assert(self.instances@.subrange(0, i + 1).drop_last() =~= self.instances@.subrange(0, i as int));
            i = i + 1;
        }
        assert(self.instances@.subrange(0, i as int) =~= self.instances@);
        out
    }
}

/// The index buffer for `n` quads: quad `i` contributes
/// `[4i+2, 4i, 4i+1, 4i+1, 4i+3, 4i+2]`.
pub fn build_indices(n: usize) -> (r: Vec<u32>)
    requires
        n <= MAX_QUADS,
    ensures
        r@ == index_pattern(n as nat),
        r@.len() == 6 * n,
{
    let mut indices: Vec<u32> = Vec::with_capacity(n * 6);
    let mut i: usize = 0;
    while i < n
        invariant
            i <= n,
            n <= MAX_QUADS,
            indices@ == index_pattern(i as nat),
        decreases n - i,
    {
        let base = (i * 4) as u32;
        let ghost before = indices@;
        indices.push(base + 2);
        indices.push(base);
        indices.push(base + 1);
        indices.push(base + 1);
        indices.push(base + 3);
        indices.push(base + 2);
        assert(indices@ =~= index_pattern(i as nat) + quad_indices(i as nat));
        i = i + 1;
    }
    proof {
        lemma_index_pattern_len(n as nat);
    }
    indices
}

/// The pattern for `n` quads holds `6 * n` indices.
pub proof fn lemma_index_pattern_len(n: nat)
    ensures
        index_pattern(n).len() == 6 * n,
    decreases n,
{
    if n > 0 {
        lemma_index_pattern_len((n - 1) as nat);
    }
}

} // verus!

verus! {

/// Quad `i` of a buffer of `n` quads owns indices `6i .. 6i+6` of the pattern,
/// and they are `[4i+2, 4i, 4i+1, 4i+1, 4i+3, 4i+2]` in that order.
pub proof fn lemma_index_pattern_quad(n: nat, i: nat)
    requires
        i < n,
        n <= MAX_QUADS,
    ensures
        index_pattern(n).subrange((6 * i) as int, (6 * i + 6) as int) == quad_indices(i),
        quad_indices(i) == seq![
            (4 * i + 2) as u32,
            (4 * i) as u32,
            (4 * i + 1) as u32,
            (4 * i + 1) as u32,
            (4 * i + 3) as u32,
            (4 * i + 2) as u32,
        ],
    decreases n,
{
    lemma_index_pattern_len((n - 1) as nat);
    if i == n - 1 {
        assert(index_pattern(n).subrange((6 * i) as int, (6 * i + 6) as int) =~= quad_indices(i));
    } else {
        lemma_index_pattern_quad((n - 1) as nat, i);
        assert(index_pattern(n).subrange((6 * i) as int, (6 * i + 6) as int) =~= index_pattern(
            (n - 1) as nat,
        ).subrange((6 * i) as int, (6 * i + 6) as int));
    }
    assert(quad_indices(i) =~= seq![
        (4 * i + 2) as u32,
        (4 * i) as u32,
        (4 * i + 1) as u32,
        (4 * i + 1) as u32,
        (4 * i + 3) as u32,
        (4 * i + 2) as u32,
    ]);
}

/// In every well-formed buffer the index count is six per record and the
/// index buffer holds exactly that many indices (none while there are none).
pub proof fn lemma_index_count_matches(q: &GpuQuads)
    requires
        q.wf(),
    ensures
        q.index_count == 6 * q.instances@.len(),
        q.index_buffer_len() == q.index_count,
{
    lemma_index_pattern_len(q.instances.len() as nat);
}

/// Relies on bytemuck::cast_slice: viewing `u32` words as bytes gives four
/// bytes per word (never fails, since `u8` has alignment 1).
#[verifier::external_body]
fn u32_bytes(words: &[u32]) -> (r: Vec<u8>)
    ensures
        r@.len() == 4 * words@.len(),
{
    bytemuck::cast_slice::<u32, u8>(words).to_vec()
}

/// What the device must receive after the records grew: the index buffer
/// and the record buffer, as words and as the bytes cast from them, and the
/// number of indices to draw. Both buffers are new device objects, so the
/// binding set that exposes the records must be rebuilt over them.
pub struct UploadPlan {
    pub index_words: Vec<u32>,
    pub instance_words: Vec<u32>,
    pub index_bytes: Vec<u8>,
    pub instance_bytes: Vec<u8>,
    pub index_count: u32,
}

/// `plan` describes exactly the buffers of `q`.
pub open spec fn plan_of(q: GpuQuads, plan: UploadPlan) -> bool {
    &&& plan.index_count == q.index_count
    &&& plan.index_words@ == index_pattern(q.instances@.len() as nat)
    &&& plan.instance_words@ == words_of(q.instances@)
    &&& plan.index_bytes@.len() == 4 * plan.index_words@.len()
    &&& plan.instance_bytes@.len() == 4 * plan.instance_words@.len()
}

impl GpuQuads {
    /// Both buffers of `self`, for upload.
    pub fn upload_plan(&self) -> (r: UploadPlan)
        requires
            self.wf(),
        ensures
            plan_of(*self, r),
            r.index_words@.len() == self.index_count,
            r.instance_words@.len() == 6 * self.instances@.len(),
    {
        let index_words = build_indices(self.instances.len());
        let instance_words = self.instance_words();
        proof {
            lemma_words_len(self.instances@);
        }
        let index_bytes = u32_bytes(index_words.as_slice());
        let instance_bytes = u32_bytes(instance_words.as_slice());
        UploadPlan { index_words, instance_words, index_bytes, instance_bytes, index_count: self.index_count }
    }

    /// A copy of the buffer with the same records, index buffer and count.
    pub fn duplicate(&self) -> (r: GpuQuads)
        ensures
            r.instances@ == self.instances@,
            r.index_count == self.index_count,
            match (r.index_buffer, self.index_buffer) {
                (Some(a), Some(b)) => a@ == b@,
                (None, None) => true,
                _ => false,
            },
    {
        let mut instances: Vec<GpuQuad> = Vec::with_capacity(self.instances.len());
        let mut i: usize = 0;
        while i < self.instances.len()
            invariant
                i <= self.instances@.len(),
                instances@ == self.instances@.subrange(0, i as int),
            decreases self.instances@.len() - i,
        {
            instances.push(self.instances[i]);
            assert(instances@ =~= self.instances@.subrange(0, i + 1));
            i = i + 1;
        }
        assert(instances@ =~= self.instances@);
        let index_buffer = match &self.index_buffer {
            Some(b) => {
                let mut c: Vec<u32> = Vec::with_capacity(b.len());
                let mut k: usize = 0;
                while k < b.len()
                    invariant
                        k <= b@.len(),
                        c@ == b@.subrange(0, k as int),
                    decreases b@.len() - k,
                {
                    c.push(b[k]);
                    assert(c@ =~= b@.subrange(0, k + 1));
                    k = k + 1;
                }
                assert(c@ =~= b@);
                Some(c)
            },
            None => None,
        };
        GpuQuads { index_buffer, index_count: self.index_count, instances }
    }
}

/// Each record contributes six words.
pub proof fn lemma_words_len(quads: Seq<GpuQuad>)
    ensures
        words_of(quads).len() == 6 * quads.len(),
    decreases quads.len(),
{
    if quads.len() > 0 {
        lemma_words_len(quads.drop_last());
    }
}

} // verus!
