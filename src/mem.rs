use vstd::prelude::*;

verus! {

/// An 8-bit value.
pub type Byte = u8;

/// A 16-bit value, stored big-endian in memory.
pub type Word = u16;

/// A 32-bit value, stored big-endian in memory.
pub type DoubleWord = u32;

/// `b` with bit `index` set.
pub open spec fn with_bit(b: u8, index: nat) -> u8 {
    b | (1u8 << index as u8)
}

/// `b` with bit `index` cleared.
pub open spec fn without_bit(b: u8, index: nat) -> u8 {
    b & !(1u8 << index as u8)
}

/// Whether bit `index` of `b` is set.
pub open spec fn has_bit(b: u8, index: nat) -> bool {
    (b >> index as u8) & 1u8 == 1u8
}

/// High byte of a word.
pub open spec fn high_byte(w: u16) -> u8 {
    (w / 256) as u8
}

/// Low byte of a word.
pub open spec fn low_byte(w: u16) -> u8 {
    (w % 256) as u8
}

/// High word of a double word.
pub open spec fn high_word(d: u32) -> u16 {
    (d / 65536) as u16
}

/// Low word of a double word.
pub open spec fn low_word(d: u32) -> u16 {
    (d % 65536) as u16
}

/// Bit operations on a byte.
pub trait B {
    /// The byte this value stands for.
    spec fn byte(&self) -> Byte;

    fn set_bit(&self, index: usize) -> (r: Byte)
        requires
            index < 8,
        ensures
            r == with_bit(self.byte(), index as nat),
    ;

    fn unset_bit(&self, index: usize) -> (r: Byte)
        requires
            index < 8,
        ensures
            r == without_bit(self.byte(), index as nat),
    ;

    fn is_set_bit(&self, index: usize) -> (r: bool)
        requires
            index < 8,
        ensures
            r == has_bit(self.byte(), index as nat),
    ;
}

/// Splitting a word into its two bytes.
pub trait W {
    /// The word this value stands for.
    spec fn word(&self) -> Word;

    fn significant_byte(&self) -> (r: Byte)
        ensures
            r == high_byte(self.word()),
    ;

    fn insignificant_byte(&self) -> (r: Byte)
        ensures
            r == low_byte(self.word()),
    ;
}

/// Splitting a double word into its two words.
pub trait D {
    /// The double word this value stands for.
    spec fn double_word(&self) -> DoubleWord;

    fn significant_word(&self) -> (r: Word)
        ensures
            r == high_word(self.double_word()),
    ;

    fn insignificant_word(&self) -> (r: Word)
        ensures
            r == low_word(self.double_word()),
    ;
}

impl B for Byte {
    open spec fn byte(&self) -> Byte {
        *self
    }

    fn set_bit(&self, index: usize) -> (r: Byte) {
        let i = index as u8;
        *self | (1u8 << i)
    }

    fn unset_bit(&self, index: usize) -> (r: Byte) {
        let i = index as u8;
        *self & !(1u8 << i)
    }

    fn is_set_bit(&self, index: usize) -> (r: bool) {
        let i = index as u8;
        let b = *self;
        let r = (b >> i) & 1u8 == 1u8;
        proof {
            assert(((1u8 << i) & b != 0) == ((b >> i) & 1u8 == 1u8)) by (bit_vector)
                requires
                    i < 8,
            ;
        }
        r
    }
}

impl W for Word {
    open spec fn word(&self) -> Word {
        *self
    }

    fn significant_byte(&self) -> (r: Byte) {
        let w = *self;
        assert(w >> 8 == w / 256) by (bit_vector);
        (w >> 8) as Byte
    }

    fn insignificant_byte(&self) -> (r: Byte) {
        let w = *self;
        assert(w as u8 == w % 256) by (bit_vector);
        w as Byte
    }
}

impl D for DoubleWord {
    open spec fn double_word(&self) -> DoubleWord {
        *self
    }

    fn significant_word(&self) -> (r: Word) {
        let d = *self;
        assert(d >> 16 == d / 65536) by (bit_vector);
        (d >> 16) as Word
    }

    fn insignificant_word(&self) -> (r: Word) {
        let d = *self;
        assert(d as u16 == d % 65536) by (bit_vector);
        d as Word
    }
}

} // verus!
