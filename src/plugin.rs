//! Wiring of the stages and the pass into a frame schedule.
use vstd::prelude::*;

verus! {

/// The frame's stages, run in this order.
#[derive(Clone, Copy, Debug, PartialEq, Eq, Structural)]
pub enum RenderStage {
    Extract,
    Prepare,
    Queue,
}

/// The stage functions of this library.
#[derive(Clone, Copy, Debug, PartialEq, Eq, Structural)]
pub enum SystemId {
    ExtractQuadsPhase,
    ExtractQuads,
    PrepareDepthTexture,
    PrepareQuads,
    QueueQuads,
}

/// The passes of the frame's 2D graph.
#[derive(Clone, Copy, Debug, PartialEq, Eq, Structural)]
pub enum PassId {
    MainPass,
    VpullPass,
}

#[derive(Clone, Copy, Debug, PartialEq, Eq, Structural)]
pub struct ScheduledSystem {
    pub stage: RenderStage,
    pub system: SystemId,
}

/// The render schedule: stage systems in registration order, and the passes
/// in the order they run.
pub struct RenderSchedule {
    pub systems: Vec<ScheduledSystem>,
    pub passes: Vec<PassId>,
}

/// Why the plugin could not be added.
#[derive(Clone, Copy, Debug, PartialEq, Eq, Structural)]
pub enum ScheduleError {
    /// The graph has no main pass to run before.
    MissingMainPass,
}

/// The systems the plugin registers, in order.
pub open spec fn plugin_systems() -> Seq<ScheduledSystem> {
    seq![
        ScheduledSystem { stage: RenderStage::Extract, system: SystemId::ExtractQuadsPhase },
        ScheduledSystem { stage: RenderStage::Extract, system: SystemId::ExtractQuads },
        ScheduledSystem { stage: RenderStage::Prepare, system: SystemId::PrepareDepthTexture },
        ScheduledSystem { stage: RenderStage::Prepare, system: SystemId::PrepareQuads },
        ScheduledSystem { stage: RenderStage::Queue, system: SystemId::QueueQuads },
    ]
}

/// Index of the first main pass at or after `k`, or -1.
pub open spec fn main_pass_from(passes: Seq<PassId>, k: int) -> int
    decreases passes.len() - k,
{
    if k < 0 || k >= passes.len() {
        -1
    } else if passes[k] == PassId::MainPass {
        k
    } else {
        main_pass_from(passes, k + 1)
    }
}

/// Adds the quad stages and pass to a render schedule.
pub struct VpullPlugin;

impl VpullPlugin {
    /// Registers the stage systems in order and puts the quad pass right
    /// before the first main pass. Without a main pass nothing changes and
    /// the error is returned.
    pub fn build(&self, schedule: &mut RenderSchedule) -> (r: Result<(), ScheduleError>)
        ensures
            main_pass_from(old(schedule).passes@, 0) == -1 ==> r == Err::<(), ScheduleError>(
                ScheduleError::MissingMainPass,
            ) && final(schedule).systems@ == old(schedule).systems@ && final(schedule).passes@
                == old(schedule).passes@,
            main_pass_from(old(schedule).passes@, 0) >= 0 ==> {
                let i = main_pass_from(old(schedule).passes@, 0);
                &&& r == Ok::<(), ScheduleError>(())
                &&& final(schedule).systems@ == old(schedule).systems@ + plugin_systems()
                &&& final(schedule).passes@ == old(schedule).passes@.insert(i, PassId::VpullPass)
            },
    {
        let mut k: usize = 0;
        while k < schedule.passes.len() && schedule.passes[k] != PassId::MainPass
            invariant
                k <= schedule.passes@.len(),
                schedule.passes@ == old(schedule).passes@,
                schedule.systems@ == old(schedule).systems@,
                main_pass_from(schedule.passes@, 0) == main_pass_from(schedule.passes@, k as int),
            decreases schedule.passes@.len() - k,
        {
            k = k + 1;
        }
        if k == schedule.passes.len() {
            return Err(ScheduleError::MissingMainPass);
        }
        schedule.systems.push(
            ScheduledSystem { stage: RenderStage::Extract, system: SystemId::ExtractQuadsPhase },
        );
        schedule.systems.push(
            ScheduledSystem { stage: RenderStage::Extract, system: SystemId::ExtractQuads },
        );
        schedule.systems.push(
            ScheduledSystem { stage: RenderStage::Prepare, system: SystemId::PrepareDepthTexture },
        );
        schedule.systems.push(
            ScheduledSystem { stage: RenderStage::Prepare, system: SystemId::PrepareQuads },
        );
        schedule.systems.push(
            ScheduledSystem { stage: RenderStage::Queue, system: SystemId::QueueQuads },
        );
        assert(schedule.systems@ =~= old(schedule).systems@ + plugin_systems());
        assert(main_pass_from(old(schedule).passes@, 0) == k);
        schedule.passes.insert(k, PassId::VpullPass);
        Ok(())
    }
}

} // verus!
