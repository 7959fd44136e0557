use vstd::prelude::*;

use crate::assembly::{instruction_of, Instruction, Register};
use crate::mem::{with_bit, without_bit, has_bit, Byte, DoubleWord, Word, B};
use crate::ram::{
    double_word_at, in_range, read_byte, read_double_word, read_word, write_double_word, write_word, RamView, RAM,
};
use crate::ucode::{code_of, UCode};

verus! {

/// The CPU's registers, as plain values.
pub struct CpuState {
    pub a: u16,
    pub x: u16,
    pub y: u16,
    pub flags: u8,
    /// The opcode of the instruction in flight.
    pub instruction: u8,
    /// How many passes the instruction in flight has had.
    pub step: u8,
    /// The word operand fetched by an instruction's first pass.
    pub operand: u16,
    /// The double-word operand fetched by an instruction's first pass.
    pub operand_long: u32,
    pub sp: u32,
    pub pc: u32,
}

/// Bit of the flag register set when a compare finds equal values.
pub const ZERO_FLAG: usize = 1;
/// Bit of the flag register set when a step crosses the register's bounds.
pub const OVERFLOW_FLAG: usize = 6;
/// Bit of the flag register set when a step leaves the top bit set.
pub const NEGATIVE_FLAG: usize = 7;

/// The value of register `r`.
pub open spec fn reg(s: CpuState, r: Register) -> u16 {
    match r {
        Register::A => s.a,
        Register::X => s.x,
        Register::Y => s.y,
    }
}

/// `s` with register `r` holding `v`.
pub open spec fn with_reg(s: CpuState, r: Register, v: u16) -> CpuState {
    match r {
        Register::A => CpuState { a: v, ..s },
        Register::X => CpuState { x: v, ..s },
        Register::Y => CpuState { y: v, ..s },
    }
}

/// `pc` moved on by `n`, wrapping at the top of the address space.
pub open spec fn advanced(pc: u32, n: int) -> u32 {
    ((pc + n) % 0x1_0000_0000) as u32
}

/// A read as the CPU makes it: a taken latch is a fault.
pub open spec fn latched_read_byte(m: RamView, a: int) -> Result<u8, UCode> {
    if m.locked {
        Err(UCode::MemoryAlreadyLocked)
    } else {
        read_byte(m.bytes, a)
    }
}

/// A word read as the CPU makes it.
pub open spec fn latched_read_word(m: RamView, a: int) -> Result<u16, UCode> {
    if m.locked {
        Err(UCode::MemoryAlreadyLocked)
    } else {
        read_word(m.bytes, a)
    }
}

/// A double-word read as the CPU makes it.
pub open spec fn latched_read_double_word(m: RamView, a: int) -> Result<u32, UCode> {
    if m.locked {
        Err(UCode::MemoryAlreadyLocked)
    } else {
        read_double_word(m.bytes, a)
    }
}

/// A word write as the CPU makes it: the memory after, and the outcome.
pub open spec fn latched_write_word(m: RamView, a: int, w: u16) -> (RamView, Result<(), UCode>) {
    if m.locked {
        (m, Err(UCode::MemoryAlreadyLocked))
    } else {
        (RamView { bytes: write_word(m.bytes, a, w).0, locked: false }, write_word(m.bytes, a, w).1)
    }
}

/// A double-word write as the CPU makes it: the memory after, and the outcome.
pub open spec fn latched_write_double_word(m: RamView, a: int, d: u32) -> (
    RamView,
    Result<(), UCode>,
) {
    if m.locked {
        (m, Err(UCode::MemoryAlreadyLocked))
    } else {
        (
            RamView { bytes: write_double_word(m.bytes, a, d).0, locked: false },
            write_double_word(m.bytes, a, d).1,
        )
    }
}

/// The zero flag after comparing two values.
pub open spec fn compared(flags: u8, a: u16, b: u16) -> u8 {
    if a == b {
        with_bit(flags, ZERO_FLAG as nat)
    } else {
        without_bit(flags, ZERO_FLAG as nat)
    }
}

/// The flags after stepping a register from `before` to `after`; `bound`
/// is the value at which the step wraps.
pub open spec fn stepped_flags(flags: u8, before: u16, bound: u16, after: u16) -> u8 {
    let f = if before == bound {
        with_bit(flags, OVERFLOW_FLAG as nat)
    } else {
        flags
    };
    if after >= 0x8000 {
        with_bit(f, NEGATIVE_FLAG as nat)
    } else {
        f
    }
}

/// The outcome of one pass of an instruction: the registers and memory
/// after it, and whether the instruction completed. A fault leaves both as
/// they were.
pub open spec fn execute_spec(s: CpuState, m: RamView, ins: Instruction) -> (
    CpuState,
    RamView,
    Result<bool, UCode>,
) {
    match ins {
        Instruction::Idle => (s, m, Ok(true)),
        Instruction::Load(r) => {
            if s.step == 0 {
                match latched_read_word(m, s.pc as int) {
                    Ok(w) => (CpuState { operand: w, pc: advanced(s.pc, 2), ..s }, m, Ok(false)),
                    Err(e) => (s, m, Err(e)),
                }
            } else if s.step == 1 {
                (with_reg(s, r, s.operand), m, Ok(true))
            } else {
                (s, m, Ok(true))
            }
        },
        Instruction::Transfer(from, to) => (with_reg(s, to, reg(s, from)), m, Ok(true)),
        Instruction::Store(r) => {
            if s.step == 0 {
                match latched_read_double_word(m, s.pc as int) {
                    Ok(d) => (
                        CpuState { operand_long: d, pc: advanced(s.pc, 4), ..s },
                        m,
                        Ok(false),
                    ),
                    Err(e) => (s, m, Err(e)),
                }
            } else if s.step == 1 {
                let (m2, res) = latched_write_word(m, s.operand_long as int, reg(s, r));
                match res {
                    Ok(_) => (s, m2, Ok(true)),
                    Err(e) => (s, m, Err(e)),
                }
            } else {
                (s, m, Ok(true))
            }
        },
        Instruction::Push(r) => {
            if s.sp < 2 {
                (s, m, Err(UCode::PointerUnderflow))
            } else {
                let (m2, res) = latched_write_word(m, s.sp as int, reg(s, r));
                match res {
                    Ok(_) => (CpuState { sp: (s.sp - 2) as u32, ..s }, m2, Ok(true)),
                    Err(e) => (s, m, Err(e)),
                }
            }
        },
        Instruction::PushCounter => {
            if s.sp < 4 {
                (s, m, Err(UCode::PointerUnderflow))
            } else {
                let (m2, res) = latched_write_double_word(m, s.sp as int, s.pc);
                match res {
                    Ok(_) => (CpuState { sp: (s.sp - 4) as u32, ..s }, m2, Ok(true)),
                    Err(e) => (s, m, Err(e)),
                }
            }
        },
        Instruction::Pull(r) => {
            if s.sp > 0xffff_ffff - 2 {
                (s, m, Err(UCode::RegisterOverflow))
            } else {
                match latched_read_word(m, s.sp as int) {
                    Ok(w) => (CpuState { sp: (s.sp + 2) as u32, ..with_reg(s, r, w) }, m, Ok(true)),
                    Err(e) => (s, m, Err(e)),
                }
            }
        },
        Instruction::PullCounter => {
            if s.sp > 0xffff_ffff - 4 {
                (s, m, Err(UCode::RegisterOverflow))
            } else {
                match latched_read_double_word(m, s.sp as int) {
                    Ok(d) => (CpuState { sp: (s.sp + 4) as u32, pc: d, ..s }, m, Ok(true)),
                    Err(e) => (s, m, Err(e)),
                }
            }
        },
        Instruction::Compare(r) => {
            if s.step == 0 {
                match latched_read_word(m, s.pc as int) {
                    Ok(w) => (CpuState { operand: w, pc: advanced(s.pc, 2), ..s }, m, Ok(false)),
                    Err(e) => (s, m, Err(e)),
                }
            } else if s.step == 1 {
                (CpuState { flags: compared(s.flags, reg(s, r), s.operand), ..s }, m, Ok(true))
            } else {
                (s, m, Ok(true))
            }
        },
        Instruction::CompareRegisters(r1, r2) => (
            CpuState { flags: compared(s.flags, reg(s, r1), reg(s, r2)), ..s },
            m,
            Ok(true),
        ),
        Instruction::BranchIfZero => {
            if has_bit(s.flags, ZERO_FLAG as nat) {
                jump_spec(s, m)
            } else {
                (s, m, Ok(true))
            }
        },
        Instruction::BranchIfNotZero => {
            if !has_bit(s.flags, ZERO_FLAG as nat) {
                jump_spec(s, m)
            } else {
                (s, m, Ok(true))
            }
        },
        Instruction::Jump => jump_spec(s, m),
        Instruction::Decrement(r) => (decremented(s, r), m, Ok(true)),
        Instruction::Increment(r) => (incremented(s, r), m, Ok(true)),
    }
}

/// `s` after a decrement of register `r`, which wraps from 0 to 0xffff.
pub open spec fn decremented(s: CpuState, r: Register) -> CpuState {
    let v = reg(s, r);
    let nv = (if v == 0 { 0xffff } else { v - 1 }) as u16;
    CpuState { flags: stepped_flags(s.flags, v, 0, nv), ..with_reg(s, r, nv) }
}

/// `s` after an increment of register `r`, which wraps from 0xffff to 0.
pub open spec fn incremented(s: CpuState, r: Register) -> CpuState {
    let v = reg(s, r);
    let nv = (if v == 0xffff { 0 } else { v + 1 }) as u16;
    CpuState { flags: stepped_flags(s.flags, v, 0xffff, nv), ..with_reg(s, r, nv) }
}

/// A taken jump: the first pass fetches the target, the second sets the
/// program counter to it.
pub open spec fn jump_spec(s: CpuState, m: RamView) -> (CpuState, RamView, Result<bool, UCode>) {
    if s.step == 0 {
        match latched_read_double_word(m, s.pc as int) {
            Ok(d) => (CpuState { operand_long: d, pc: advanced(s.pc, 4), ..s }, m, Ok(false)),
            Err(e) => (s, m, Err(e)),
        }
    } else if s.step == 1 {
        (CpuState { pc: s.operand_long, ..s }, m, Ok(true))
    } else {
        (s, m, Ok(true))
    }
}

/// The register machine.
pub struct CPU {
    a_register: Word,
    x_register: Word,
    y_register: Word,
    /// negative, overflow, -, break, decimal, interrupt, zero, carry
    flag_register: Byte,
    instruction: Byte,
    instruction_step: u8,
    instruction_step_a_registry: Word,
    instruction_step_a_registry_long: DoubleWord,
    stack_pointer: DoubleWord,
    program_counter: DoubleWord,
}

impl View for CPU {
    type V = CpuState;

    closed spec fn view(&self) -> CpuState {
        CpuState {
            a: self.a_register,
            x: self.x_register,
            y: self.y_register,
            flags: self.flag_register,
            instruction: self.instruction,
            step: self.instruction_step,
            operand: self.instruction_step_a_registry,
            operand_long: self.instruction_step_a_registry_long,
            sp: self.stack_pointer,
            pc: self.program_counter,
        }
    }
}

impl CPU {
    /// Where the stack starts; it grows down.
    pub const STACK_START: DoubleWord = 0x04FF_FFFF;
    /// Where programs start.
    pub const PROGRAM_START: DoubleWord = 0x1000_0000;

    /// A CPU with zeroed registers, idle, with the stack pointer and the
    /// program counter at their start addresses.
    pub fn new() -> (r: CPU)
        ensures
            r@ == (CpuState {
                a: 0,
                x: 0,
                y: 0,
                flags: 0,
                instruction: 0,
                step: 0,
                operand: 0,
                operand_long: 0,
                sp: 0x04FF_FFFF,
                pc: 0x1000_0000,
            }),
    {
        CPU {
            a_register: 0x0,
            x_register: 0x0,
            y_register: 0x0,
            flag_register: 0x0,
            instruction: 0x0,
            instruction_step: 0,
            instruction_step_a_registry: 0x0,
            instruction_step_a_registry_long: 0x0,
            stack_pointer: CPU::STACK_START,
            program_counter: CPU::PROGRAM_START,
        }
    }

    fn register(&self, r: Register) -> (v: Word)
        ensures
            v == reg(self@, r),
    {
        match r {
            Register::A => self.a_register,
            Register::X => self.x_register,
            Register::Y => self.y_register,
        }
    }

    fn set_register(&mut self, r: Register, v: Word)
        ensures
            final(self)@ == with_reg(old(self)@, r, v),
    {
        match r {
            Register::A => self.a_register = v,
            Register::X => self.x_register = v,
            Register::Y => self.y_register = v,
        }
    }

    /// Reads a byte with the latch held for the access.
    fn read_byte(&self, ram: &mut RAM, address: usize) -> (r: Result<Byte, UCode>)
        ensures
            r == latched_read_byte(old(ram)@, address as int),
            final(ram)@ == old(ram)@,
    {
        if let Err(e) = ram.lock() {
            return Err(e);
        }
        let res = ram.fetch_byte(address);
        let _ = ram.unlock();
        res
    }

    /// Reads a word with the latch held for the whole access.
    fn read_word(&self, ram: &mut RAM, address: usize) -> (r: Result<Word, UCode>)
        ensures
            r == latched_read_word(old(ram)@, address as int),
            final(ram)@ == old(ram)@,
    {
        if let Err(e) = ram.lock() {
            return Err(e);
        }
        let res = ram.fetch_word(address);
        let _ = ram.unlock();
        res
    }

    /// Reads a double word with the latch held for the whole access.
    fn read_double_word(&self, ram: &mut RAM, address: usize) -> (r: Result<DoubleWord, UCode>)
        ensures
            r == latched_read_double_word(old(ram)@, address as int),
            final(ram)@ == old(ram)@,
    {
        if let Err(e) = ram.lock() {
            return Err(e);
        }
        let res = ram.fetch_double_word(address);
        let _ = ram.unlock();
        res
    }

    /// Writes a word with the latch held for the whole access.
    fn write_word(&self, ram: &mut RAM, address: usize, word: Word) -> (r: Result<(), UCode>)
        ensures
            (final(ram)@, r) == latched_write_word(old(ram)@, address as int, word),
    {
        if let Err(e) = ram.lock() {
            return Err(e);
        }
        let res = ram.write_word(address, word);
        let _ = ram.unlock();
        res
    }

    /// Writes a double word with the latch held for the whole access.
    fn write_double_word(&self, ram: &mut RAM, address: usize, dword: DoubleWord) -> (r: Result<
        (),
        UCode,
    >)
        ensures
            (final(ram)@, r) == latched_write_double_word(old(ram)@, address as int, dword),
    {
        if let Err(e) = ram.lock() {
            return Err(e);
        }
        let res = ram.write_double_word(address, dword);
        let _ = ram.unlock();
        res
    }

    /// Moves the program counter on by `n` bytes.
    fn advance(&mut self, n: u32)
        ensures
            final(self)@ == (CpuState { pc: advanced(old(self)@.pc, n as int), ..old(self)@ }),
    {
        self.program_counter = self.program_counter.wrapping_add(n);
    }

    /// Reads the byte at the program counter and moves past it.
    fn fetch_byte(&mut self, ram: &mut RAM) -> (r: Result<Byte, UCode>)
        ensures
            r == latched_read_byte(old(ram)@, old(self)@.pc as int),
            final(ram)@ == old(ram)@,
            r is Ok ==> final(self)@ == (CpuState { pc: advanced(old(self)@.pc, 1), ..old(self)@ }),
            r is Err ==> final(self)@ == old(self)@,
    {
        let res = self.read_byte(ram, self.program_counter as usize);
        if res.is_ok() {
            self.advance(1);
        }
        res
    }

    /// Reads the word at the program counter and moves past it.
    fn fetch_word(&mut self, ram: &mut RAM) -> (r: Result<Word, UCode>)
        ensures
            r == latched_read_word(old(ram)@, old(self)@.pc as int),
            final(ram)@ == old(ram)@,
            r is Ok ==> final(self)@ == (CpuState { pc: advanced(old(self)@.pc, 2), ..old(self)@ }),
            r is Err ==> final(self)@ == old(self)@,
    {
        let res = self.read_word(ram, self.program_counter as usize);
        if res.is_ok() {
            self.advance(2);
        }
        res
    }

    /// Reads the double word at the program counter and moves past it.
    fn fetch_double_word(&mut self, ram: &mut RAM) -> (r: Result<DoubleWord, UCode>)
        ensures
            r == latched_read_double_word(old(ram)@, old(self)@.pc as int),
            final(ram)@ == old(ram)@,
            r is Ok ==> final(self)@ == (CpuState { pc: advanced(old(self)@.pc, 4), ..old(self)@ }),
            r is Err ==> final(self)@ == old(self)@,
    {
        let res = self.read_double_word(ram, self.program_counter as usize);
        if res.is_ok() {
            self.advance(4);
        }
        res
    }

    /// First pass of a word-operand instruction: fetch the operand.
    fn fetch_operand(&mut self, ram: &mut RAM) -> (r: Result<bool, UCode>)
        ensures
            (final(self)@, final(ram)@, r) == (match latched_read_word(old(ram)@, old(self)@.pc as int) {
                Ok(w) => (
                    CpuState { operand: w, pc: advanced(old(self)@.pc, 2), ..old(self)@ },
                    old(ram)@,
                    Ok(false),
                ),
                Err(e) => (old(self)@, old(ram)@, Err(e)),
            }),
    {
        match self.fetch_word(ram) {
            Ok(w) => {
                self.instruction_step_a_registry = w;
                Ok(false)
            },
            Err(e) => Err(e),
        }
    }

    /// First pass of an address-operand instruction: fetch the address.
    fn fetch_operand_long(&mut self, ram: &mut RAM) -> (r: Result<bool, UCode>)
        ensures
            (final(self)@, final(ram)@, r) == (match latched_read_double_word(
                old(ram)@,
                old(self)@.pc as int,
            ) {
                Ok(d) => (
                    CpuState { operand_long: d, pc: advanced(old(self)@.pc, 4), ..old(self)@ },
                    old(ram)@,
                    Ok(false),
                ),
                Err(e) => (old(self)@, old(ram)@, Err(e)),
            }),
    {
        match self.fetch_double_word(ram) {
            Ok(d) => {
                self.instruction_step_a_registry_long = d;
                Ok(false)
            },
            Err(e) => Err(e),
        }
    }

    fn jump(&mut self, ram: &mut RAM) -> (r: Result<bool, UCode>)
        ensures
            (final(self)@, final(ram)@, r) == jump_spec(old(self)@, old(ram)@),
    {
        if self.instruction_step == 0 {
            self.fetch_operand_long(ram)
        } else {
            if self.instruction_step == 1 {
                self.program_counter = self.instruction_step_a_registry_long;
            }
            Ok(true)
        }
    }

    fn load(&mut self, r: Register, ram: &mut RAM) -> (res: Result<bool, UCode>)
        ensures
            (final(self)@, final(ram)@, res) == execute_spec(old(self)@, old(ram)@, Instruction::Load(r)),
    {
        if self.instruction_step == 0 {
            self.fetch_operand(ram)
        } else {
            if self.instruction_step == 1 {
                let v = self.instruction_step_a_registry;
                self.set_register(r, v);
            }
            Ok(true)
        }
    }

    fn store(&mut self, r: Register, ram: &mut RAM) -> (res: Result<bool, UCode>)
        ensures
            (final(self)@, final(ram)@, res) == execute_spec(old(self)@, old(ram)@, Instruction::Store(r)),
    {
        if self.instruction_step == 0 {
            self.fetch_operand_long(ram)
        } else if self.instruction_step == 1 {
            let v = self.register(r);
            match self.write_word(ram, self.instruction_step_a_registry_long as usize, v) {
                Ok(_) => Ok(true),
                Err(e) => Err(e),
            }
        } else {
            Ok(true)
        }
    }

    fn push(&mut self, r: Register, ram: &mut RAM) -> (res: Result<bool, UCode>)
        ensures
            (final(self)@, final(ram)@, res) == execute_spec(old(self)@, old(ram)@, Instruction::Push(r)),
    {
        if self.stack_pointer < 2 {
            return Err(UCode::PointerUnderflow);
        }
        let v = self.register(r);
        match self.write_word(ram, self.stack_pointer as usize, v) {
            Ok(_) => {
                self.stack_pointer = self.stack_pointer - 2;
                Ok(true)
            },
            Err(e) => Err(e),
        }
    }

    fn push_counter(&mut self, ram: &mut RAM) -> (res: Result<bool, UCode>)
        ensures
            (final(self)@, final(ram)@, res) == execute_spec(old(self)@, old(ram)@, Instruction::PushCounter),
    {
        if self.stack_pointer < 4 {
            return Err(UCode::PointerUnderflow);
        }
        match self.write_double_word(ram, self.stack_pointer as usize, self.program_counter) {
            Ok(_) => {
                self.stack_pointer = self.stack_pointer - 4;
                Ok(true)
            },
            Err(e) => Err(e),
        }
    }

    fn pull(&mut self, r: Register, ram: &mut RAM) -> (res: Result<bool, UCode>)
        ensures
            (final(self)@, final(ram)@, res) == execute_spec(old(self)@, old(ram)@, Instruction::Pull(r)),
    {
        if self.stack_pointer > DoubleWord::MAX - 2 {
            return Err(UCode::RegisterOverflow);
        }
        match self.read_word(ram, self.stack_pointer as usize) {
            Ok(w) => {
                self.set_register(r, w);
                self.stack_pointer = self.stack_pointer + 2;
                Ok(true)
            },
            Err(e) => Err(e),
        }
    }

    fn pull_counter(&mut self, ram: &mut RAM) -> (res: Result<bool, UCode>)
        ensures
            (final(self)@, final(ram)@, res) == execute_spec(old(self)@, old(ram)@, Instruction::PullCounter),
    {
        if self.stack_pointer > DoubleWord::MAX - 4 {
            return Err(UCode::RegisterOverflow);
        }
        match self.read_double_word(ram, self.stack_pointer as usize) {
            Ok(d) => {
                self.program_counter = d;
                self.stack_pointer = self.stack_pointer + 4;
                Ok(true)
            },
            Err(e) => Err(e),
        }
    }

    fn compare_flags(&self, a: Word, b: Word) -> (f: Byte)
        ensures
            f == compared(self@.flags, a, b),
    {
        if a == b {
            self.flag_register.set_bit(ZERO_FLAG)
        } else {
            self.flag_register.unset_bit(ZERO_FLAG)
        }
    }

    fn compare(&mut self, r: Register, ram: &mut RAM) -> (res: Result<bool, UCode>)
        ensures
            (final(self)@, final(ram)@, res) == execute_spec(old(self)@, old(ram)@, Instruction::Compare(r)),
    {
        if self.instruction_step == 0 {
            self.fetch_operand(ram)
        } else {
            if self.instruction_step == 1 {
                let v = self.register(r);
                self.flag_register = self.compare_flags(v, self.instruction_step_a_registry);
            }
            Ok(true)
        }
    }

    fn stepped(&self, before: Word, bound: Word, after: Word) -> (f: Byte)
        ensures
            f == stepped_flags(self@.flags, before, bound, after),
    {
        let f = if before == bound {
            self.flag_register.set_bit(OVERFLOW_FLAG)
        } else {
            self.flag_register
        };
        if after >= 0x8000 {
            f.set_bit(NEGATIVE_FLAG)
        } else {
            f
        }
    }

    fn decrement(&mut self, r: Register)
        ensures
            final(self)@ == decremented(old(self)@, r),
    {
        let v = self.register(r);
        let nv: Word = if v == Word::MIN { Word::MAX } else { v - 1 };
        let f = self.stepped(v, Word::MIN, nv);
        self.set_register(r, nv);
        self.flag_register = f;
    }

    fn increment(&mut self, r: Register)
        ensures
            final(self)@ == incremented(old(self)@, r),
    {
        let v = self.register(r);
        let nv: Word = if v == Word::MAX { Word::MIN } else { v + 1 };
        let f = self.stepped(v, Word::MAX, nv);
        self.set_register(r, nv);
        self.flag_register = f;
    }

    /// Runs one pass of `opcode` at the current instruction step. Returns
    /// whether the instruction completed; a fault leaves the registers and
    /// the memory as they were.
    pub fn execute(&mut self, opcode: Byte, ram: &mut RAM) -> (res: Result<bool, UCode>)
        ensures
            (final(self)@, final(ram)@, res) == execute_spec(old(self)@, old(ram)@, instruction_of(opcode)),
    {
        match Instruction::decode(opcode) {
            Instruction::Idle => Ok(true),
            Instruction::Load(r) => self.load(r, ram),
            Instruction::Transfer(from, to) => {
                let v = self.register(from);
                self.set_register(to, v);
                Ok(true)
            },
            Instruction::Store(r) => self.store(r, ram),
            Instruction::Push(r) => self.push(r, ram),
            Instruction::PushCounter => self.push_counter(ram),
            Instruction::Pull(r) => self.pull(r, ram),
            Instruction::PullCounter => self.pull_counter(ram),
            Instruction::Compare(r) => self.compare(r, ram),
            Instruction::CompareRegisters(r1, r2) => {
                let a = self.register(r1);
                let b = self.register(r2);
                self.flag_register = self.compare_flags(a, b);
                Ok(true)
            },
            Instruction::BranchIfZero => {
                if self.flag_register.is_set_bit(ZERO_FLAG) {
                    self.jump(ram)
                } else {
                    Ok(true)
                }
            },
            Instruction::BranchIfNotZero => {
                if !self.flag_register.is_set_bit(ZERO_FLAG) {
                    self.jump(ram)
                } else {
                    Ok(true)
                }
            },
            Instruction::Jump => self.jump(ram),
            Instruction::Decrement(r) => {
                self.decrement(r);
                Ok(true)
            },
            Instruction::Increment(r) => {
                self.increment(r);
                Ok(true)
            },
        }
    }

    /// One pass of the run loop: when no instruction is in flight, fetch the
    /// next opcode; run one pass of the instruction in flight; count the
    /// pass, and reset the count once the instruction completes.
    pub fn cycle(&mut self, ram: &mut RAM) -> (res: Result<bool, UCode>)
        ensures
            (final(self)@, final(ram)@, res) == cycle_spec(old(self)@, old(ram)@),
    {
        if self.instruction_step == 0 {
            match self.fetch_byte(ram) {
                Ok(op) => self.instruction = op,
                Err(e) => return Err(e),
            }
        }
        proof {
            lemma_incomplete_only_at_first_pass(self@, ram@, instruction_of(self.instruction));
        }
        match self.execute(self.instruction, ram) {
            Ok(done) => {
                if done {
                    self.instruction_step = 0;
                } else {
                    self.instruction_step = self.instruction_step + 1;
                }
                Ok(done)
            },
            Err(e) => Err(e),
        }
    }

    /// Runs up to `cycles` passes of the run loop, stopping at the first fault.
    pub fn launch(&mut self, ram: &mut RAM, cycles: u64) -> (res: Result<(), UCode>)
        ensures
            (final(self)@, final(ram)@, res) == run_spec(old(self)@, old(ram)@, cycles as nat),
    {
        let mut i: u64 = 0;
        while i < cycles
            invariant
                i <= cycles,
                run_spec(old(self)@, old(ram)@, cycles as nat) == run_spec(
                    self@,
                    ram@,
                    (cycles - i) as nat,
                ),
            decreases cycles - i,
        {
            if let Err(e) = self.cycle(ram) {
                return Err(e);
            }
            i = i + 1;
        }
        Ok(())
    }

    /// The exit status that the run loop ends the process with on a fault.
    pub fn resolve_error(ucode: UCode) -> (r: Byte)
        ensures
            r == code_of(ucode),
    {
        ucode.code()
    }

    pub fn a_register(&self) -> (r: Word)
        ensures
            r == self@.a,
    {
        self.a_register
    }

    pub fn x_register(&self) -> (r: Word)
        ensures
            r == self@.x,
    {
        self.x_register
    }

    pub fn y_register(&self) -> (r: Word)
        ensures
            r == self@.y,
    {
        self.y_register
    }

    pub fn flag_register(&self) -> (r: Byte)
        ensures
            r == self@.flags,
    {
        self.flag_register
    }

    pub fn instruction_step(&self) -> (r: u8)
        ensures
            r == self@.step,
    {
        self.instruction_step
    }

    pub fn stack_pointer(&self) -> (r: DoubleWord)
        ensures
            r == self@.sp,
    {
        self.stack_pointer
    }

    pub fn program_counter(&self) -> (r: DoubleWord)
        ensures
            r == self@.pc,
    {
        self.program_counter
    }
}

/// One pass of the run loop over plain values.
pub open spec fn cycle_spec(s: CpuState, m: RamView) -> (CpuState, RamView, Result<bool, UCode>) {
    let fetched: Result<CpuState, UCode> = if s.step == 0 {
        match latched_read_byte(m, s.pc as int) {
            Ok(op) => Ok(CpuState { instruction: op, pc: advanced(s.pc, 1), ..s }),
            Err(e) => Err(e),
        }
    } else {
        Ok(s)
    };
    match fetched {
        Err(e) => (s, m, Err(e)),
        Ok(s1) => {
            let (s2, m2, res) = execute_spec(s1, m, instruction_of(s1.instruction));
            match res {
                Ok(done) => (
                    CpuState { step: if done { 0 } else { (s2.step + 1) as u8 }, ..s2 },
                    m2,
                    Ok(done),
                ),
                Err(e) => (s2, m2, Err(e)),
            }
        },
    }
}

/// Up to `n` passes of the run loop, stopping at the first fault.
pub open spec fn run_spec(s: CpuState, m: RamView, n: nat) -> (CpuState, RamView, Result<(), UCode>)
    decreases n,
{
    if n == 0 {
        (s, m, Ok(()))
    } else {
        let (s2, m2, res) = cycle_spec(s, m);
        match res {
            Ok(_) => run_spec(s2, m2, (n - 1) as nat),
            Err(e) => (s2, m2, Err(e)),
        }
    }
}

/// Only a first pass leaves an instruction incomplete, and no pass moves
/// the step count.
proof fn lemma_incomplete_only_at_first_pass(s: CpuState, m: RamView, ins: Instruction)
    ensures
        execute_spec(s, m, ins).0.step == s.step,
        execute_spec(s, m, ins).2 == Ok::<bool, UCode>(false) ==> s.step == 0,
{
}

/// A BNE whose branch is not taken completes in one pass and moves the
/// program counter past the opcode alone: the four target bytes stay in the
/// instruction stream.
pub proof fn branch_not_taken(s: CpuState, m: RamView)
    requires
        s.step == 0,
        has_bit(s.flags, ZERO_FLAG as nat),
        latched_read_byte(m, s.pc as int) == Ok::<u8, UCode>(0xab),
    ensures
        cycle_spec(s, m) == (CpuState { instruction: 0xab, pc: advanced(s.pc, 1), ..s }, m, Ok::<
            bool,
            UCode,
        >(true)),
{
}

/// A BNE whose branch is taken completes in two passes and leaves the
/// program counter at the double word that follows the opcode.
pub proof fn branch_taken(s: CpuState, m: RamView)
    requires
        s.step == 0,
        !has_bit(s.flags, ZERO_FLAG as nat),
        latched_read_byte(m, s.pc as int) == Ok::<u8, UCode>(0xab),
        s.pc + 5 <= 0xffff_ffff,
        in_range(m.bytes.len(), s.pc + 1, 4),
    ensures
        cycle_spec(s, m).2 == Ok::<bool, UCode>(false),
        cycle_spec(s, m).0.step == 1,
        cycle_spec(cycle_spec(s, m).0, cycle_spec(s, m).1).2 == Ok::<bool, UCode>(true),
        cycle_spec(cycle_spec(s, m).0, cycle_spec(s, m).1).0.pc == double_word_at(m.bytes, s.pc + 1),
        cycle_spec(cycle_spec(s, m).0, cycle_spec(s, m).1).0.step == 0,
        cycle_spec(cycle_spec(s, m).0, cycle_spec(s, m).1).1 == m,
{
    lemma_taken_branch_first_pass(s, m);
    let s1 = cycle_spec(s, m).0;
    lemma_taken_branch_second_pass(s1, m);
}

proof fn lemma_taken_branch_first_pass(s: CpuState, m: RamView)
    requires
        s.step == 0,
        !has_bit(s.flags, ZERO_FLAG as nat),
        latched_read_byte(m, s.pc as int) == Ok::<u8, UCode>(0xab),
        s.pc + 5 <= 0xffff_ffff,
        in_range(m.bytes.len(), s.pc + 1, 4),
    ensures
        cycle_spec(s, m) == (CpuState {
            instruction: 0xab,
            operand_long: double_word_at(m.bytes, s.pc + 1),
            pc: (s.pc + 5) as u32,
            step: 1,
            ..s
        }, m, Ok::<bool, UCode>(false)),
{
    let s0 = CpuState { instruction: 0xab, pc: advanced(s.pc, 1), ..s };
    assert(instruction_of(0xab) == Instruction::BranchIfNotZero);
    assert(execute_spec(s0, m, Instruction::BranchIfNotZero) == jump_spec(s0, m));
}

proof fn lemma_taken_branch_second_pass(s: CpuState, m: RamView)
    requires
        s.step == 1,
        s.instruction == 0xab,
        !has_bit(s.flags, ZERO_FLAG as nat),
    ensures
        cycle_spec(s, m) == (CpuState { pc: s.operand_long, step: 0, ..s }, m, Ok::<
            bool,
            UCode,
        >(true)),
{
    assert(instruction_of(0xab) == Instruction::BranchIfNotZero);
    assert(execute_spec(s, m, Instruction::BranchIfNotZero) == jump_spec(s, m));
}

/// A decrement of a register at its minimum wraps it to its maximum and
/// sets the overflow flag.
pub proof fn decrement_at_minimum(s: CpuState, m: RamView, r: Register)
    requires
        reg(s, r) == 0,
    ensures
        reg(execute_spec(s, m, Instruction::Decrement(r)).0, r) == 0xffff,
        has_bit(execute_spec(s, m, Instruction::Decrement(r)).0.flags, OVERFLOW_FLAG as nat),
        execute_spec(s, m, Instruction::Decrement(r)).2 == Ok::<bool, UCode>(true),
{
    let f = s.flags;
    assert(((((f | (1u8 << 6u8)) | (1u8 << 7u8)) >> 6u8) & 1u8) == 1u8) by (bit_vector);
}

} // verus!
