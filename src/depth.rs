use vstd::prelude::*;

verus! {

/// Bits per sample of the encoded image.
#[derive(Clone, Copy, Debug, PartialEq, Eq, Structural)]
pub enum BitDepth {
    Eight,
    Sixteen,
}

impl BitDepth {
    /// Number of bits per sample, as written in the `IHDR` chunk.
    pub open spec fn bits(self) -> u8 {
        match self {
            BitDepth::Eight => 8,
            BitDepth::Sixteen => 16,
        }
    }

    /// Largest sample value representable at this depth.
    pub open spec fn max_sample(self) -> nat {
        match self {
            BitDepth::Eight => 255,
            BitDepth::Sixteen => 65535,
        }
    }

    /// Number of bytes one sample takes in a scanline.
    pub open spec fn sample_width(self) -> nat {
        match self {
            BitDepth::Eight => 1,
            BitDepth::Sixteen => 2,
        }
    }

    pub fn as_u8(self) -> (r: u8)
        ensures
            r == self.bits(),
    {
        match self {
            BitDepth::Eight => 8,
            BitDepth::Sixteen => 16,
        }
    }
}

} // verus!
