use vstd::prelude::*;

use crate::chip_util::{combine_to_double_word, combine_to_word, double_word_of, word_of};
use crate::mem::{high_byte, high_word, low_byte, low_word, Byte, DoubleWord, Word, D, W};
use crate::ucode::UCode;

verus! {

/// What a memory unit holds: its bytes, and whether its latch is taken.
pub struct RamView {
    pub bytes: Seq<u8>,
    pub locked: bool,
}

/// Whether `n` bytes starting at `a` lie inside a memory of `len` bytes.
pub open spec fn in_range(len: nat, a: int, n: int) -> bool {
    0 <= a && a + n <= len
}

/// The big-endian word at `a`.
pub open spec fn word_at(m: Seq<u8>, a: int) -> u16 {
    word_of(m[a], m[a + 1])
}

/// The big-endian double word at `a`.
pub open spec fn double_word_at(m: Seq<u8>, a: int) -> u32 {
    double_word_of(word_at(m, a), word_at(m, a + 2))
}

/// `m` with the big-endian word `w` stored at `a`.
pub open spec fn with_word_at(m: Seq<u8>, a: int, w: u16) -> Seq<u8> {
    m.update(a, high_byte(w)).update(a + 1, low_byte(w))
}

/// `m` with the big-endian double word `d` stored at `a`.
pub open spec fn with_double_word_at(m: Seq<u8>, a: int, d: u32) -> Seq<u8> {
    with_word_at(with_word_at(m, a, high_word(d)), a + 2, low_word(d))
}

/// Reading the byte at `a`.
pub open spec fn read_byte(m: Seq<u8>, a: int) -> Result<u8, UCode> {
    if in_range(m.len(), a, 1) {
        Ok(m[a])
    } else {
        Err(UCode::InvalidMemoryRead)
    }
}

/// Reading the word at `a`.
pub open spec fn read_word(m: Seq<u8>, a: int) -> Result<u16, UCode> {
    if in_range(m.len(), a, 2) {
        Ok(word_at(m, a))
    } else {
        Err(UCode::InvalidMemoryRead)
    }
}

/// Reading the double word at `a`.
pub open spec fn read_double_word(m: Seq<u8>, a: int) -> Result<u32, UCode> {
    if in_range(m.len(), a, 4) {
        Ok(double_word_at(m, a))
    } else {
        Err(UCode::InvalidMemoryRead)
    }
}

/// Writing the byte `b` at `a`: the memory after, and the outcome.
pub open spec fn write_byte(m: Seq<u8>, a: int, b: u8) -> (Seq<u8>, Result<(), UCode>) {
    if in_range(m.len(), a, 1) {
        (m.update(a, b), Ok(()))
    } else {
        (m, Err(UCode::InvalidMemoryWrite))
    }
}

/// Writing the word `w` at `a`: the memory after, and the outcome.
pub open spec fn write_word(m: Seq<u8>, a: int, w: u16) -> (Seq<u8>, Result<(), UCode>) {
    if in_range(m.len(), a, 2) {
        (with_word_at(m, a, w), Ok(()))
    } else {
        (m, Err(UCode::InvalidMemoryWrite))
    }
}

/// Writing the double word `d` at `a`: the memory after, and the outcome.
pub open spec fn write_double_word(m: Seq<u8>, a: int, d: u32) -> (Seq<u8>, Result<(), UCode>) {
    if in_range(m.len(), a, 4) {
        (with_double_word_at(m, a, d), Ok(()))
    } else {
        (m, Err(UCode::InvalidMemoryWrite))
    }
}

/// Taking a latch that is `locked`: whether it is taken after, and the outcome.
pub open spec fn acquire(locked: bool) -> (bool, Result<(), UCode>) {
    if locked {
        (true, Err(UCode::MemoryAlreadyLocked))
    } else {
        (true, Ok(()))
    }
}

/// Releasing a latch that is `locked`: whether it is taken after, and the outcome.
pub open spec fn release(locked: bool) -> (bool, Result<(), UCode>) {
    if locked {
        (false, Ok(()))
    } else {
        (false, Err(UCode::MemoryAlreadyUnlocked))
    }
}

/// The memory unit: a fixed number of bytes and an access latch.
pub struct RAM {
    memory: Vec<Byte>,
    lock: bool,
}

impl View for RAM {
    type V = RamView;

    closed spec fn view(&self) -> RamView {
        RamView { bytes: self.memory@, locked: self.lock }
    }
}

impl RAM {
    /// A memory of `size` zero bytes, with its latch free.
    pub fn new(size: usize) -> (r: RAM)
        ensures
            r@.bytes == Seq::new(size as nat, |i: int| 0u8),
            !r@.locked,
    {
        let memory = vec![0u8; size];
        assert(memory@ =~= Seq::new(size as nat, |i: int| 0u8));
        RAM { memory, lock: false }
    }

    /// The number of bytes.
    pub fn size(&self) -> (r: usize)
        ensures
            r == self@.bytes.len(),
    {
        self.memory.len()
    }

    /// Takes the latch; fails if it is already taken.
    pub fn lock(&mut self) -> (r: Result<(), UCode>)
        ensures
            final(self)@.bytes == old(self)@.bytes,
            (final(self)@.locked, r) == acquire(old(self)@.locked),
    {
        if self.lock {
            Err(UCode::MemoryAlreadyLocked)
        } else {
            self.lock = true;
            Ok(())
        }
    }

    /// Releases the latch; fails if it is already free.
    pub fn unlock(&mut self) -> (r: Result<(), UCode>)
        ensures
            final(self)@.bytes == old(self)@.bytes,
            (final(self)@.locked, r) == release(old(self)@.locked),
    {
        if self.lock {
            self.lock = false;
            Ok(())
        } else {
            Err(UCode::MemoryAlreadyUnlocked)
        }
    }

    /// Whether the latch is taken.
    pub fn is_locked(&self) -> (r: bool)
        ensures
            r == self@.locked,
    {
        self.lock
    }

    /// The byte at `address`.
    pub fn fetch_byte(&self, address: usize) -> (r: Result<Byte, UCode>)
        ensures
            r == read_byte(self@.bytes, address as int),
    {
        if address < self.memory.len() {
            Ok(self.memory[address])
        } else {
            Err(UCode::InvalidMemoryRead)
        }
    }

    /// The big-endian word at `address`.
    pub fn fetch_word(&self, address: usize) -> (r: Result<Word, UCode>)
        ensures
            r == read_word(self@.bytes, address as int),
    {
        if address < self.memory.len() && self.memory.len() - address >= 2 {
            Ok(combine_to_word(self.memory[address], self.memory[address + 1]))
        } else {
            Err(UCode::InvalidMemoryRead)
        }
    }

    /// The big-endian double word at `address`.
    pub fn fetch_double_word(&self, address: usize) -> (r: Result<DoubleWord, UCode>)
        ensures
            r == read_double_word(self@.bytes, address as int),
    {
        if address < self.memory.len() && self.memory.len() - address >= 4 {
            let hi = combine_to_word(self.memory[address], self.memory[address + 1]);
            let lo = combine_to_word(self.memory[address + 2], self.memory[address + 3]);
            Ok(combine_to_double_word(hi, lo))
        } else {
            Err(UCode::InvalidMemoryRead)
        }
    }

    /// Stores `byte` at `address`.
    pub fn write_byte(&mut self, address: usize, byte: Byte) -> (r: Result<(), UCode>)
        ensures
            (final(self)@.bytes, r) == write_byte(old(self)@.bytes, address as int, byte),
            final(self)@.locked == old(self)@.locked,
    {
        if address < self.memory.len() {
            self.memory.set(address, byte);
            Ok(())
        } else {
            Err(UCode::InvalidMemoryWrite)
        }
    }

    /// Stores `word` big-endian at `address`; on failure nothing is written.
    pub fn write_word(&mut self, address: usize, word: Word) -> (r: Result<(), UCode>)
        ensures
            (final(self)@.bytes, r) == write_word(old(self)@.bytes, address as int, word),
            final(self)@.locked == old(self)@.locked,
    {
        if address < self.memory.len() && self.memory.len() - address >= 2 {
            self.memory.set(address, word.significant_byte());
            self.memory.set(address + 1, word.insignificant_byte());
            Ok(())
        } else {
            Err(UCode::InvalidMemoryWrite)
        }
    }

    /// Stores `dword` big-endian at `address`; on failure nothing is written.
    pub fn write_double_word(&mut self, address: usize, dword: DoubleWord) -> (r: Result<(), UCode>)
        ensures
            (final(self)@.bytes, r) == write_double_word(old(self)@.bytes, address as int, dword),
            final(self)@.locked == old(self)@.locked,
    {
        if address < self.memory.len() && self.memory.len() - address >= 4 {
            let hi = dword.significant_word();
            let lo = dword.insignificant_word();
            self.memory.set(address, hi.significant_byte());
            self.memory.set(address + 1, hi.insignificant_byte());
            self.memory.set(address + 2, lo.significant_byte());
            self.memory.set(address + 3, lo.insignificant_byte());
            Ok(())
        } else {
            Err(UCode::InvalidMemoryWrite)
        }
    }
}

/// A byte written inside memory reads back as written.
pub proof fn byte_round_trip(m: Seq<u8>, a: int, b: u8)
    requires
        in_range(m.len(), a, 1),
    ensures
        write_byte(m, a, b).1 == Ok::<(), UCode>(()),
        read_byte(write_byte(m, a, b).0, a) == Ok::<u8, UCode>(b),
{
}

/// A word written inside memory reads back as written, its high byte first.
pub proof fn word_round_trip(m: Seq<u8>, a: int, w: u16)
    requires
        in_range(m.len(), a, 2),
    ensures
        write_word(m, a, w).1 == Ok::<(), UCode>(()),
        read_word(write_word(m, a, w).0, a) == Ok::<u16, UCode>(w),
        read_byte(write_word(m, a, w).0, a) == Ok::<u8, UCode>(high_byte(w)),
        read_byte(write_word(m, a, w).0, a + 1) == Ok::<u8, UCode>(low_byte(w)),
{
    lemma_word_split(w);
}

/// A double word written inside memory reads back as written.
pub proof fn double_word_round_trip(m: Seq<u8>, a: int, d: u32)
    requires
        in_range(m.len(), a, 4),
    ensures
        write_double_word(m, a, d).1 == Ok::<(), UCode>(()),
        read_double_word(write_double_word(m, a, d).0, a) == Ok::<u32, UCode>(d),
        read_word(write_double_word(m, a, d).0, a) == Ok::<u16, UCode>(high_word(d)),
        read_word(write_double_word(m, a, d).0, a + 2) == Ok::<u16, UCode>(low_word(d)),
{
    lemma_word_split(high_word(d));
    lemma_word_split(low_word(d));
    lemma_double_word_split(d);
}

/// At an address at or past the end, every read and write fails and the
/// memory stays as it was.
pub proof fn out_of_range_faults(m: Seq<u8>, a: int, b: u8, w: u16, d: u32)
    requires
        a >= m.len(),
    ensures
        read_byte(m, a) == Err::<u8, UCode>(UCode::InvalidMemoryRead),
        read_word(m, a) == Err::<u16, UCode>(UCode::InvalidMemoryRead),
        read_double_word(m, a) == Err::<u32, UCode>(UCode::InvalidMemoryRead),
        write_byte(m, a, b) == (m, Err::<(), UCode>(UCode::InvalidMemoryWrite)),
        write_word(m, a, w) == (m, Err::<(), UCode>(UCode::InvalidMemoryWrite)),
        write_double_word(m, a, d) == (m, Err::<(), UCode>(UCode::InvalidMemoryWrite)),
{
}

/// Taking the latch twice without a release fails the second time, and
/// releasing it twice without taking it fails the second time.
pub proof fn latch_not_reentrant(locked: bool)
    ensures
        acquire(acquire(locked).0).1 == Err::<(), UCode>(UCode::MemoryAlreadyLocked),
        release(release(locked).0).1 == Err::<(), UCode>(UCode::MemoryAlreadyUnlocked),
{
}

proof fn lemma_word_split(w: u16)
    ensures
        word_of(high_byte(w), low_byte(w)) == w,
{
    assert((w / 256) * 256 + w % 256 == w) by (nonlinear_arith);
}

proof fn lemma_double_word_split(d: u32)
    ensures
        double_word_of(high_word(d), low_word(d)) == d,
{
    assert((d / 65536) * 65536 + d % 65536 == d) by (nonlinear_arith);
}

} // verus!
