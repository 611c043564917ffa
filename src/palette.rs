//! The shared color palette that records index by their `color` field.
use vstd::prelude::*;

verus! {

/// An sRGB color, one byte per channel.
#[derive(Clone, Copy, Debug, PartialEq, Eq, Structural)]
pub struct Rgba8 {
    pub r: u8,
    pub g: u8,
    pub b: u8,
    pub a: u8,
}

/// The palette's colors and whether they have been handed to the device.
pub struct Palette {
    pub colors: Vec<Rgba8>,
    pub prepared: bool,
}

/// The default colors: #648FFF, #785EF0, #DC267F, #FE6100, #FFB000, opaque.
pub open spec fn default_colors() -> Seq<Rgba8> {
    seq![
        Rgba8 { r: 0x64, g: 0x8F, b: 0xFF, a: 0xFF },
        Rgba8 { r: 0x78, g: 0x5E, b: 0xF0, a: 0xFF },
        Rgba8 { r: 0xDC, g: 0x26, b: 0x7F, a: 0xFF },
        Rgba8 { r: 0xFE, g: 0x61, b: 0x00, a: 0xFF },
        Rgba8 { r: 0xFF, g: 0xB0, b: 0x00, a: 0xFF },
    ]
}

impl Default for Palette {
    fn default() -> (r: Palette)
        ensures
            r.colors@ == default_colors(),
            !r.prepared,
    {
        let colors = vec![
            Rgba8 { r: 0x64, g: 0x8F, b: 0xFF, a: 0xFF },
            Rgba8 { r: 0x78, g: 0x5E, b: 0xF0, a: 0xFF },
            Rgba8 { r: 0xDC, g: 0x26, b: 0x7F, a: 0xFF },
            Rgba8 { r: 0xFE, g: 0x61, b: 0x00, a: 0xFF },
            Rgba8 { r: 0xFF, g: 0xB0, b: 0x00, a: 0xFF },
        ];
        assert(colors@ =~= default_colors());
        Palette { colors, prepared: false }
    }
}

impl Palette {
    /// The colors to upload, the first time only; afterwards `None`.
    pub fn prepare(&mut self) -> (r: Option<Vec<Rgba8>>)
        ensures
            final(self).colors@ == old(self).colors@,
            final(self).prepared,
            match r {
                Some(c) => !old(self).prepared && c@ == old(self).colors@,
                None => old(self).prepared,
            },
    {
        if self.prepared {
            return None;
        }
        self.prepared = true;
        let mut out: Vec<Rgba8> = Vec::with_capacity(self.colors.len());
        let mut i: usize = 0;
        while i < self.colors.len()
            invariant
                i <= self.colors@.len(),
                self.colors@ == old(self).colors@,
                out@ == self.colors@.subrange(0, i as int),
            decreases self.colors@.len() - i,
        {
            out.push(self.colors[i]);
            assert(out@ =~= self.colors@.subrange(0, i + 1));
            i = i + 1;
        }
        assert(out@ =~= self.colors@);
        Some(out)
    }
}

} // verus!
