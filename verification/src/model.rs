//! Configuration and data model: polynomial width classes, input-reflection
//! modes, input steps, and the record that one validation case is built from.

use vstd::prelude::*;

verus! {

/// Input-reflection granularity of the data fed to a CRC engine. It names the
/// hardware's documented input-reversal modes, not a free bit-reversal
/// parameter: `Disabled` leaves the data unchanged, `By8Bits` reverses the
/// bits inside each byte while keeping byte order, and `By16Bits` / `By32Bits`
/// reverse the bit order of each halfword / word as a whole.
#[derive(Clone, Copy, Debug, PartialEq, Eq, Structural)]
pub enum BitReversal {
    Disabled,
    By8Bits,
    By16Bits,
    By32Bits,
}

/// Generator polynomial, tagged by its width class. Each variant carries the
/// coefficient sized to its width; a 7-bit polynomial rides in a `u8` whose
/// top bit must stay clear (see [`Polynomial::wf`]).
#[derive(Clone, Copy, Debug, PartialEq, Eq, Structural)]
pub enum Polynomial {
    Crc7(u8),
    Crc8(u8),
    Crc16(u16),
    Crc32(u32),
}

/// One quantized input chunk, tagged by its width. Steps are ordered and the
/// order is significant: a CRC is order-dependent.
#[derive(Clone, Copy, Debug, PartialEq, Eq, Structural)]
pub enum Step {
    Data8(u8),
    Data16(u16),
    Data32(u32),
}

/// Full configuration of one CRC computation, immutable once constructed.
#[derive(Clone, Debug, PartialEq, Eq, Structural)]
pub struct CrcConfig {
    pub reflect_input: BitReversal,
    pub reflect_output: bool,
    pub initial_value: u32,
    pub polynomial: Polynomial,
}

/// One complete test vector: a configuration and an ordered sequence of input
/// steps. It is constructed per validation case and consumed read-only.
pub struct CrcCalculation {
    pub config: CrcConfig,
    pub steps: Vec<Step>,
}

impl Polynomial {
    /// Width of the generator polynomial in bits.
    pub open spec fn spec_bits(self) -> u8 {
        match self {
            Polynomial::Crc7(_) => 7,
            Polynomial::Crc8(_) => 8,
            Polynomial::Crc16(_) => 16,
            Polynomial::Crc32(_) => 32,
        }
    }

    /// The coefficient widened to a 32-bit container.
    pub open spec fn spec_value(self) -> u32 {
        match self {
            Polynomial::Crc7(v) => v as u32,
            Polynomial::Crc8(v) => v as u32,
            Polynomial::Crc16(v) => v as u32,
            Polynomial::Crc32(v) => v,
        }
    }

    /// The coefficient fits within the declared width class. Only the 7-bit
    /// class can be violated, since its coefficient rides in a full byte.
    pub open spec fn wf(self) -> bool {
        match self {
            Polynomial::Crc7(v) => v < 0x80,
            _ => true,
        }
    }

    /// Control-register width-selector field encoding for this width class:
    /// 0 selects 32 bits, 1 selects 16, 2 selects 8, and 3 selects 7.
    pub open spec fn spec_poly_size(self) -> u8 {
        match self {
            Polynomial::Crc7(_) => 3,
            Polynomial::Crc8(_) => 2,
            Polynomial::Crc16(_) => 1,
            Polynomial::Crc32(_) => 0,
        }
    }

    pub fn bits(&self) -> (r: u8)
        ensures
            r == self.spec_bits(),
    {
        match self {
            Polynomial::Crc7(_) => 7,
            Polynomial::Crc8(_) => 8,
            Polynomial::Crc16(_) => 16,
            Polynomial::Crc32(_) => 32,
        }
    }

    pub fn value(&self) -> (r: u32)
        ensures
            r == self.spec_value(),
    {
        match self {
            Polynomial::Crc7(v) => *v as u32,
            Polynomial::Crc8(v) => *v as u32,
            Polynomial::Crc16(v) => *v as u32,
            Polynomial::Crc32(v) => *v,
        }
    }

    /// The width-selector code that the peripheral's control register takes
    /// for this polynomial.
    pub fn poly_size(&self) -> (r: u8)
        ensures
            r == self.spec_poly_size(),
    {
        match self {
            Polynomial::Crc7(_) => 3,
            Polynomial::Crc8(_) => 2,
            Polynomial::Crc16(_) => 1,
            Polynomial::Crc32(_) => 0,
        }
    }
}

} // verus!
