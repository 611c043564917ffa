//! The CPU-side rectangle and its GPU record.
//!
//! Coordinates are carried as IEEE-754 single-precision bit patterns: the
//! pipeline never computes with them, it only moves them into the record
//! layout that the shader reads.
use vstd::prelude::*;

verus! {

/// A 2D point; `x` and `y` are the bit patterns of two `f32` values.
#[derive(Clone, Copy, Debug, PartialEq, Eq, Structural)]
pub struct Point {
    pub x: u32,
    pub y: u32,
}

/// An axis-aligned rectangle given by two opposite corners.
///
/// The corners are not ordered: `p0.x <= p1.x` is not assumed anywhere.
/// `stroke_width` is an `f32` bit pattern; `color` indexes the palette.
#[derive(Clone, Copy, Debug, PartialEq, Eq, Structural)]
pub struct DRect {
    pub p0: Point,
    pub p1: Point,
    pub stroke_width: u32,
    pub color: u32,
}

/// The record that the shader pulls for each quad: two corners, then the
/// stroke width, then the packed color index, tightly packed (24 bytes).
#[derive(Clone, Copy, Debug, PartialEq, Eq, Structural)]
pub struct GpuQuad {
    pub p0: Point,
    pub p1: Point,
    pub stroke_width: u32,
    pub color: u32,
}

impl GpuQuad {
    /// The record built from a rectangle: every field carried over as it is.
    pub open spec fn spec_from(rect: DRect) -> GpuQuad {
        GpuQuad { p0: rect.p0, p1: rect.p1, stroke_width: rect.stroke_width, color: rect.color }
    }

    /// The record's words in buffer order.
    pub open spec fn spec_words(self) -> Seq<u32> {
        seq![self.p0.x, self.p0.y, self.p1.x, self.p1.y, self.stroke_width, self.color]
    }

    pub fn from_rect(rect: &DRect) -> (r: GpuQuad)
        ensures
            r == GpuQuad::spec_from(*rect),
    {
        GpuQuad { p0: rect.p0, p1: rect.p1, stroke_width: rect.stroke_width, color: rect.color }
    }

    /// The record laid out as the shader expects it, one word per field.
    pub fn words(&self) -> (r: [u32; 6])
        ensures
            r@ == self.spec_words(),
    {
        let r = [self.p0.x, self.p0.y, self.p1.x, self.p1.y, self.stroke_width, self.color];
        assert(r@ =~= self.spec_words());
        r
    }
}

impl From<DRect> for GpuQuad {
    fn from(rect: DRect) -> (r: GpuQuad) {
        GpuQuad::from_rect(&rect)
    }
}

impl vstd::std_specs::convert::FromSpecImpl<DRect> for GpuQuad {
    open spec fn obeys_from_spec() -> bool {
        true
    }

    open spec fn from_spec(rect: DRect) -> GpuQuad {
        GpuQuad::spec_from(rect)
    }
}

} // verus!
