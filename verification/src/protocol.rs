use vstd::prelude::*;

verus! {

/// A register travels on the wire in one of four widths: three little-endian
/// integer sizes or a raw IEEE-754 single-precision value.
#[derive(Clone, Copy, Debug, PartialEq, Eq, Structural, Hash)]
pub enum Resolution {
    /// An 8-bit integer.
    Int8,
    /// A 16-bit little-endian integer.
    Int16,
    /// A 32-bit little-endian integer.
    Int32,
    /// A 32-bit IEEE-754 value, transmitted as its four raw bytes.
    Float,
}

impl Resolution {
    /// Number of payload bytes one register occupies at this resolution.
    pub open spec fn spec_size(self) -> usize {
        match self {
            Resolution::Int8 => 1,
            Resolution::Int16 => 2,
            Resolution::Int32 => 4,
            Resolution::Float => 4,
        }
    }

    /// Returns the number of bytes for the resolution.
    pub fn size(&self) -> (n: usize)
        ensures
            n == self.spec_size(),
            1 <= n <= 4,
    {
        match self {
            Resolution::Int8 => 1,
            Resolution::Int16 => 2,
            Resolution::Int32 => 4,
            Resolution::Float => 4,
        }
    }
}

} // verus!
