//! Vertex-pulled quad rendering: the batching and upload pipeline that turns
//! batches of rectangles into a GPU record buffer plus a shared index buffer,
//! and the render pass that draws them with one indexed call per queued item.
pub mod depth;
pub mod frame;
pub mod gpu_quads;
pub mod palette;
pub mod phase_item;
pub mod pipeline;
pub mod plugin;
pub mod quad;
pub mod render_command;
pub mod render_graph;
pub mod stages;
