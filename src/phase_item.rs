//! Draw items queued per view, and the per-view queue that holds them.
use vstd::prelude::*;

verus! {

/// The draw procedures known to the pass. There is one: bind the pipeline,
/// the view uniforms and the quad data, then draw indexed.
#[derive(Clone, Copy, Debug, PartialEq, Eq, Structural)]
pub enum DrawFunctionId {
    DrawQuadsVertexPulling,
}

/// One queued draw: the batch it was queued for and the procedure to run.
#[derive(Clone, Copy, Debug, PartialEq, Eq, Structural)]
pub struct VpullPhaseItem {
    pub entity: u64,
    pub draw_function: DrawFunctionId,
}

/// The same item under the name the render pass uses for it.
pub type QuadsPhaseItem = VpullPhaseItem;

impl VpullPhaseItem {
    /// All items share one key, so they are drawn in the order queued.
    pub fn sort_key(&self) -> (r: u32)
        ensures
            r == 0,
    {
        0
    }

    pub fn draw_function(&self) -> (r: DrawFunctionId)
        ensures
            r == self.draw_function,
    {
        self.draw_function
    }

    pub fn entity(&self) -> (r: u64)
        ensures
            r == self.entity,
    {
        self.entity
    }
}

/// The draw queue of one view.
pub struct RenderPhase {
    pub view: u64,
    pub items: Vec<VpullPhaseItem>,
}

impl RenderPhase {
    pub fn new(view: u64) -> (r: RenderPhase)
        ensures
            r.view == view,
            r.items@.len() == 0,
    {
        RenderPhase { view, items: Vec::new() }
    }

    pub fn add(&mut self, item: VpullPhaseItem)
        ensures
            final(self).view == old(self).view,
            final(self).items@ == old(self).items@.push(item),
    {
        self.items.push(item);
    }
}

} // verus!
