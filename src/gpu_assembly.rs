use vstd::prelude::*;

use crate::mem::Byte;

verus! {

/// The GPU's opcode bytes.
pub struct GPUAssembly {}

impl GPUAssembly {
    /// Does nothing; also what an empty command queue yields.
    pub const HLT: Byte = 0x00;
    /// Asks the host to print the GPU state.
    pub const STK: Byte = 0x01;
    /// Binds a vertex buffer and a target monitor: two operand bytes.
    pub const BVB: Byte = 0xa0;
    /// Clears the binding.
    pub const UVB: Byte = 0xa1;
    /// Appends a vertex to the bound buffer: eleven operand bytes.
    pub const VRX: Byte = 0xab;
    /// Draws every populated buffer onto its monitor.
    pub const DRW: Byte = 0xaf;
}

/// How many operand bytes follow an opcode in the command stream.
pub open spec fn operand_count(op: u8) -> nat {
    if op == 0xa0 {
        2
    } else if op == 0xab {
        11
    } else {
        0
    }
}

impl GPUAssembly {
    /// How many operand bytes follow `op` in the command stream.
    pub fn operand_count(op: Byte) -> (r: usize)
        ensures
            r == operand_count(op),
    {
        if op == GPUAssembly::BVB {
            2
        } else if op == GPUAssembly::VRX {
            11
        } else {
            0
        }
    }
}

} // verus!
