//! Depth targets for the views that draw quads: one per camera whose target
//! size is known, taken from a cache keyed by target and size.
use vstd::prelude::*;

verus! {

/// Samples per pixel of the depth target; the pipeline uses the same count.
pub const DEPTH_SAMPLE_COUNT: u32 = 4;

/// A size in physical pixels.
#[derive(Clone, Copy, Debug, PartialEq, Eq, Structural)]
pub struct Extent {
    pub width: u32,
    pub height: u32,
}

/// Texture formats the pipeline uses.
#[derive(Clone, Copy, Debug, PartialEq, Eq, Structural)]
pub enum TextureFormat {
    /// 32-bit float depth.
    Depth32Float,
    /// The surface's default color format.
    SurfaceDefault,
}

/// A camera of a view: its render target and, once known, the target's size
/// in physical pixels.
#[derive(Clone, Copy, Debug, PartialEq, Eq, Structural)]
pub struct ExtractedCamera {
    pub entity: u64,
    pub target: u64,
    pub physical_size: Option<Extent>,
}

/// The depth texture a view gets: a two-dimensional texture of the camera's
/// target size, one layer, one mip level, 32-bit float depth, multisampled
/// `sample_count` times, usable as a render attachment. Views whose
/// descriptors are equal (same target, same size) share one cached texture.
#[derive(Clone, Copy, Debug, PartialEq, Eq, Structural)]
pub struct ViewDepthTexture {
    pub entity: u64,
    pub target: u64,
    pub width: u32,
    pub height: u32,
    pub depth_or_array_layers: u32,
    pub mip_level_count: u32,
    pub sample_count: u32,
    pub format: TextureFormat,
}

/// The depth texture of a camera of size `s`.
pub open spec fn depth_texture_of(c: ExtractedCamera, s: Extent) -> ViewDepthTexture {
    ViewDepthTexture {
        entity: c.entity,
        target: c.target,
        width: s.width,
        height: s.height,
        depth_or_array_layers: 1,
        mip_level_count: 1,
        sample_count: DEPTH_SAMPLE_COUNT,
        format: TextureFormat::Depth32Float,
    }
}

/// The depth textures for the first `n` cameras: one per camera with a size,
/// in camera order, each of that camera's own size.
pub open spec fn depth_plan(cams: Seq<ExtractedCamera>, n: int) -> Seq<ViewDepthTexture>
    decreases n,
{
    if n <= 0 {
        Seq::empty()
    } else {
        let c = cams[n - 1];
        depth_plan(cams, n - 1) + match c.physical_size {
            Some(s) => seq![depth_texture_of(c, s)],
            None => Seq::empty(),
        }
    }
}

/// One depth texture per camera that has a size, in camera order, each of
/// its camera's size; a camera whose size is not known yet gets none.
pub fn prepare_depth_texture(cams: &Vec<ExtractedCamera>) -> (r: Vec<ViewDepthTexture>)
    ensures
        r@ == depth_plan(cams@, cams@.len() as int),
{
    let mut out: Vec<ViewDepthTexture> = Vec::new();
    let mut k: usize = 0;
    while k < cams.len()
        invariant
            k <= cams@.len(),
            out@ == depth_plan(cams@, k as int),
        decreases cams@.len() - k,
    {
        let c = cams[k];
        if let Some(s) = c.physical_size {
            out.push(
                ViewDepthTexture {
                    entity: c.entity,
                    target: c.target,
                    width: s.width,
                    height: s.height,
                    depth_or_array_layers: 1,
                    mip_level_count: 1,
                    sample_count: DEPTH_SAMPLE_COUNT,
                    format: TextureFormat::Depth32Float,
                },
            );
        }
        assert(out@ =~= depth_plan(cams@, k + 1));
        k = k + 1;
    }
    out
}

} // verus!
