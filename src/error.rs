//! Classified errors of the emulator core.

use vstd::prelude::*;

verus! {

/// What can go wrong while building or running the machine.
#[derive(Debug, Clone, Copy, PartialEq, Eq, Structural)]
pub enum NesError {
    /// The image lacks the `NES\x1A` magic or is shorter than its header says.
    BadRomHeader,
    /// The cartridge names a mapper this core does not implement.
    UnsupportedMapper,
    /// An opcode outside the implemented set was fetched.
    UnsupportedOpcode,
    /// Reserved: unmapped accesses read as zero and ignore writes instead.
    BusOutOfRange,
}

} // verus!
