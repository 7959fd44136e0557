use vstd::prelude::*;

use crate::mem::Byte;

verus! {

/// The CPU's opcode bytes.
pub struct Assembly {}

impl Assembly {
    /// Does nothing; the idle opcode.
    pub const HLT: Byte = 0x00;
    /// Asks the host to print the machine state.
    pub const STK: Byte = 0x01;

    pub const LDA: Byte = 0x40;
    pub const LDX: Byte = 0x41;
    pub const LDY: Byte = 0x42;

    pub const TAX: Byte = 0x50;
    pub const TAY: Byte = 0x51;
    pub const TXA: Byte = 0x52;
    pub const TXY: Byte = 0x53;
    pub const TYA: Byte = 0x54;
    pub const TYX: Byte = 0x55;

    pub const STA: Byte = 0x60;
    pub const STX: Byte = 0x61;
    pub const STY: Byte = 0x62;

    pub const PSA: Byte = 0x70;
    pub const PSX: Byte = 0x71;
    pub const PSY: Byte = 0x72;
    pub const PSP: Byte = 0x73;

    pub const PLA: Byte = 0x76;
    pub const PLX: Byte = 0x77;
    pub const PLY: Byte = 0x78;
    pub const PLP: Byte = 0x79;

    pub const CMP: Byte = 0xa0;
    pub const CMX: Byte = 0xa1;
    pub const CMY: Byte = 0xa2;
    pub const CAX: Byte = 0xa3;
    pub const CAY: Byte = 0xa4;
    pub const CXY: Byte = 0xa5;

    pub const BEQ: Byte = 0xaa;
    pub const BNE: Byte = 0xab;
    pub const JMP: Byte = 0xac;

    pub const DEC: Byte = 0xb0;
    pub const DEX: Byte = 0xb1;
    pub const DEY: Byte = 0xb2;

    pub const INC: Byte = 0xba;
    pub const INX: Byte = 0xbb;
    pub const INY: Byte = 0xbc;
}

/// A general-purpose register.
#[derive(Clone, Copy, Debug, PartialEq, Eq, Structural)]
pub enum Register {
    A,
    X,
    Y,
}

/// The instruction set, one variant per family.
#[derive(Clone, Copy, Debug, PartialEq, Eq, Structural)]
pub enum Instruction {
    /// HLT, STK and every byte that is no opcode: completes at once.
    Idle,
    /// LDA/LDX/LDY: a word operand into a register; two cycles.
    Load(Register),
    /// TAX..TYX: copies the first register into the second.
    Transfer(Register, Register),
    /// STA/STX/STY: a register to the address operand; two cycles.
    Store(Register),
    /// PSA/PSX/PSY: a register onto the stack.
    Push(Register),
    /// PSP: the program counter onto the stack.
    PushCounter,
    /// PLA/PLX/PLY: a register from the stack.
    Pull(Register),
    /// PLP: the program counter from the stack.
    PullCounter,
    /// CMP/CMX/CMY: compares a register with a word operand; two cycles.
    Compare(Register),
    /// CAX/CAY/CXY: compares two registers.
    CompareRegisters(Register, Register),
    /// BEQ: jumps when the zero flag is set.
    BranchIfZero,
    /// BNE: jumps when the zero flag is clear.
    BranchIfNotZero,
    /// JMP: jumps to the address operand; two cycles.
    Jump,
    /// DEC/DEX/DEY.
    Decrement(Register),
    /// INC/INX/INY.
    Increment(Register),
}

/// The instruction that an opcode byte stands for.
pub open spec fn instruction_of(op: u8) -> Instruction {
    if op == 0x40 { Instruction::Load(Register::A) }
    else if op == 0x41 { Instruction::Load(Register::X) }
    else if op == 0x42 { Instruction::Load(Register::Y) }
    else if op == 0x50 { Instruction::Transfer(Register::A, Register::X) }
    else if op == 0x51 { Instruction::Transfer(Register::A, Register::Y) }
    else if op == 0x52 { Instruction::Transfer(Register::X, Register::A) }
    else if op == 0x53 { Instruction::Transfer(Register::X, Register::Y) }
    else if op == 0x54 { Instruction::Transfer(Register::Y, Register::A) }
    else if op == 0x55 { Instruction::Transfer(Register::Y, Register::X) }
    else if op == 0x60 { Instruction::Store(Register::A) }
    else if op == 0x61 { Instruction::Store(Register::X) }
    else if op == 0x62 { Instruction::Store(Register::Y) }
    else if op == 0x70 { Instruction::Push(Register::A) }
    else if op == 0x71 { Instruction::Push(Register::X) }
    else if op == 0x72 { Instruction::Push(Register::Y) }
    else if op == 0x73 { Instruction::PushCounter }
    else if op == 0x76 { Instruction::Pull(Register::A) }
    else if op == 0x77 { Instruction::Pull(Register::X) }
    else if op == 0x78 { Instruction::Pull(Register::Y) }
    else if op == 0x79 { Instruction::PullCounter }
    else if op == 0xa0 { Instruction::Compare(Register::A) }
    else if op == 0xa1 { Instruction::Compare(Register::X) }
    else if op == 0xa2 { Instruction::Compare(Register::Y) }
    else if op == 0xa3 { Instruction::CompareRegisters(Register::A, Register::X) }
    else if op == 0xa4 { Instruction::CompareRegisters(Register::A, Register::Y) }
    else if op == 0xa5 { Instruction::CompareRegisters(Register::X, Register::Y) }
    else if op == 0xaa { Instruction::BranchIfZero }
    else if op == 0xab { Instruction::BranchIfNotZero }
    else if op == 0xac { Instruction::Jump }
    else if op == 0xb0 { Instruction::Decrement(Register::A) }
    else if op == 0xb1 { Instruction::Decrement(Register::X) }
    else if op == 0xb2 { Instruction::Decrement(Register::Y) }
    else if op == 0xba { Instruction::Increment(Register::A) }
    else if op == 0xbb { Instruction::Increment(Register::X) }
    else if op == 0xbc { Instruction::Increment(Register::Y) }
    else { Instruction::Idle }
}

impl Instruction {
    /// Decodes an opcode byte.
    pub fn decode(op: Byte) -> (r: Instruction)
        ensures
            r == instruction_of(op),
    {
        if op == Assembly::LDA {
            Instruction::Load(Register::A)
        } else if op == Assembly::LDX {
            Instruction::Load(Register::X)
        } else if op == Assembly::LDY {
            Instruction::Load(Register::Y)
        } else if op == Assembly::TAX {
            Instruction::Transfer(Register::A, Register::X)
        } else if op == Assembly::TAY {
            Instruction::Transfer(Register::A, Register::Y)
        } else if op == Assembly::TXA {
            Instruction::Transfer(Register::X, Register::A)
        } else if op == Assembly::TXY {
            Instruction::Transfer(Register::X, Register::Y)
        } else if op == Assembly::TYA {
            Instruction::Transfer(Register::Y, Register::A)
        } else if op == Assembly::TYX {
            Instruction::Transfer(Register::Y, Register::X)
        } else if op == Assembly::STA {
            Instruction::Store(Register::A)
        } else if op == Assembly::STX {
            Instruction::Store(Register::X)
        } else if op == Assembly::STY {
            Instruction::Store(Register::Y)
        } else if op == Assembly::PSA {
            Instruction::Push(Register::A)
        } else if op == Assembly::PSX {
            Instruction::Push(Register::X)
        } else if op == Assembly::PSY {
            Instruction::Push(Register::Y)
        } else if op == Assembly::PSP {
            Instruction::PushCounter
        } else if op == Assembly::PLA {
            Instruction::Pull(Register::A)
        } else if op == Assembly::PLX {
            Instruction::Pull(Register::X)
        } else if op == Assembly::PLY {
            Instruction::Pull(Register::Y)
        } else if op == Assembly::PLP {
            Instruction::PullCounter
        } else if op == Assembly::CMP {
            Instruction::Compare(Register::A)
        } else if op == Assembly::CMX {
            Instruction::Compare(Register::X)
        } else if op == Assembly::CMY {
            Instruction::Compare(Register::Y)
        } else if op == Assembly::CAX {
            Instruction::CompareRegisters(Register::A, Register::X)
        } else if op == Assembly::CAY {
            Instruction::CompareRegisters(Register::A, Register::Y)
        } else if op == Assembly::CXY {
            Instruction::CompareRegisters(Register::X, Register::Y)
        } else if op == Assembly::BEQ {
            Instruction::BranchIfZero
        } else if op == Assembly::BNE {
            Instruction::BranchIfNotZero
        } else if op == Assembly::JMP {
            Instruction::Jump
        } else if op == Assembly::DEC {
            Instruction::Decrement(Register::A)
        } else if op == Assembly::DEX {
            Instruction::Decrement(Register::X)
        } else if op == Assembly::DEY {
            Instruction::Decrement(Register::Y)
        } else if op == Assembly::INC {
            Instruction::Increment(Register::A)
        } else if op == Assembly::INX {
            Instruction::Increment(Register::X)
        } else if op == Assembly::INY {
            Instruction::Increment(Register::Y)
        } else {
            Instruction::Idle
        }
    }
}

} // verus!
