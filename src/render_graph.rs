//! The render pass that draws the queued quads of the active view.
use vstd::prelude::*;

use crate::gpu_quads::GpuQuads;
use crate::phase_item::{RenderPhase, VpullPhaseItem};
use crate::render_command::{quads_draw, DrawResources, LoadOp, PassCommand};

verus! {

/// Whether a node has found what it draws.
#[derive(Clone, Copy, Debug, PartialEq, Eq, Structural)]
pub enum RenderState {
    Loading,
    Ready,
}

/// Why a node could not run.
#[derive(Clone, Copy, Debug, PartialEq, Eq, Structural)]
pub enum NodeRunError {
    /// The node has no sub-graph to hand the frame to.
    MissingSubGraph,
}

/// Name of the quad pass in the pass order.
pub const VPULL_PASS: &'static str = "VPULL_PASS";

/// A placeholder for the main pass: it has no sub-graph to run.
pub struct MainNode {
    pub state: RenderState,
}

impl Default for MainNode {
    fn default() -> (r: MainNode)
        ensures
            r.state == RenderState::Loading,
    {
        MainNode { state: RenderState::Loading }
    }
}

impl MainNode {
    pub fn run(&self) -> (r: Result<(), NodeRunError>)
        ensures
            r == Err::<(), NodeRunError>(NodeRunError::MissingSubGraph),
    {
        Err(NodeRunError::MissingSubGraph)
    }
}

/// Index of the first queue at or after `k` that belongs to `view`, or -1.
pub open spec fn find_phase_from(phases: Seq<RenderPhase>, view: u64, k: int) -> int
    decreases phases.len() - k,
{
    if k < 0 || k >= phases.len() {
        -1
    } else if phases[k].view == view {
        k
    } else {
        find_phase_from(phases, view, k + 1)
    }
}

/// Index of the first queue that belongs to `view`, or -1 when it has none.
pub open spec fn find_phase(phases: Seq<RenderPhase>, view: u64) -> int {
    find_phase_from(phases, view, 0)
}

/// The view's queue, if the view is given and has one.
pub open spec fn resolved_phase(view: Option<u64>, phases: Seq<RenderPhase>) -> Option<int> {
    match view {
        None => None,
        Some(v) => if find_phase(phases, v) >= 0 {
            Some(find_phase(phases, v))
        } else {
            None
        },
    }
}

/// What drawing `items` records: each item's draw procedure in turn. A
/// procedure that fails stops only its own item.
pub open spec fn items_commands(items: Seq<VpullPhaseItem>, res: DrawResources, gpu: GpuQuads) -> Seq<
    PassCommand,
>
    decreases items.len(),
{
    if items.len() == 0 {
        Seq::empty()
    } else {
        items_commands(items.drop_last(), res, gpu) + quads_draw(res, gpu).0
    }
}

/// What the pass records for a frame: nothing without a resolved view;
/// otherwise it begins on the view's target, keeping its content, and
/// draws the view's queued items in order.
pub open spec fn pass_commands(
    view: Option<u64>,
    phases: Seq<RenderPhase>,
    res: DrawResources,
    gpu: GpuQuads,
) -> Seq<PassCommand> {
    match resolved_phase(view, phases) {
        None => Seq::empty(),
        Some(i) => seq![PassCommand::BeginPass { view: view.unwrap(), load: LoadOp::Load }]
            + items_commands(phases[i].items@, res, gpu),
    }
}

fn find_view_phase(phases: &Vec<RenderPhase>, view: u64) -> (r: Option<usize>)
    ensures
        match r {
            Some(i) => i as int == find_phase(phases@, view) && i < phases@.len(),
            None => find_phase(phases@, view) == -1,
        },
{
    let mut k: usize = 0;
    while k < phases.len()
        invariant
            k <= phases@.len(),
            find_phase(phases@, view) == find_phase_from(phases@, view, k as int),
        decreases phases@.len() - k,
    {
        if phases[k].view == view {
            return Some(k);
        }
        k = k + 1;
    }
    None
}

/// The quad pass. It is `Ready` once the active view resolves to a queue.
pub struct VpullPassNode {
    pub state: RenderState,
}

impl VpullPassNode {
    /// Name of the input that carries the active view.
    pub const IN_VIEW: &'static str = "view";

    pub fn new() -> (r: VpullPassNode)
        ensures
            r.state == RenderState::Loading,
    {
        VpullPassNode { state: RenderState::Loading }
    }

    /// Becomes `Ready` when the view resolves to a queue, `Loading` otherwise.
    pub fn update(&mut self, view: Option<u64>, phases: &Vec<RenderPhase>)
        ensures
            final(self).state == if resolved_phase(view, phases@).is_some() {
                RenderState::Ready
            } else {
                RenderState::Loading
            },
    {
        let found = match view {
            Some(v) => find_view_phase(phases, v).is_some(),
            None => false,
        };
        self.state = if found {
            RenderState::Ready
        } else {
            RenderState::Loading
        };
    }

    /// Records the frame's pass. With no view, or none with a queue, it
    /// records nothing: that is not an error.
    pub fn run(
        &self,
        view: Option<u64>,
        phases: &Vec<RenderPhase>,
        res: &DrawResources,
        gpu: &GpuQuads,
    ) -> (r: Vec<PassCommand>)
        ensures
            r@ == pass_commands(view, phases@, *res, *gpu),
    {
        let mut pass: Vec<PassCommand> = Vec::new();
        let v = match view {
            Some(v) => v,
            None => {
                return pass;
            },
        };
        let i = match find_view_phase(phases, v) {
            Some(i) => i,
            None => {
                return pass;
            },
        };
        pass.push(PassCommand::BeginPass { view: v, load: LoadOp::Load });
        let items = &phases[i].items;
        let ghost head = pass@;
        let mut k: usize = 0;
        while k < items.len()
            invariant
                k <= items@.len(),
                pass@ == head + items_commands(items@.subrange(0, k as int), *res, *gpu),
            decreases items@.len() - k,
        {
            items[k].draw_function.draw(res, gpu, &mut pass);
            assert(items@.subrange(0, k + 1).drop_last() =~= items@.subrange(0, k as int));
            k = k + 1;
        }
        assert(items@.subrange(0, k as int) =~= items@);
        pass
    }
}

} // verus!

verus! {

/// With no registered view, Submit queues nothing and the pass records no
/// command, whatever view it is handed.
pub proof fn lemma_no_view_no_work(
    before: Seq<RenderPhase>,
    after: Seq<RenderPhase>,
    n: nat,
    view: Option<u64>,
    res: DrawResources,
    gpu: GpuQuads,
)
    requires
        before.len() == 0,
        crate::stages::queued(before, after, n),
    ensures
        after.len() == 0,
        pass_commands(view, after, res, gpu).len() == 0,
{
}

} // verus!
