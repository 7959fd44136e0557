use vstd::prelude::*;

use crate::mem::{Byte, DoubleWord, Word};

verus! {

/// The word whose high byte is `hi` and low byte is `lo`.
pub open spec fn word_of(hi: u8, lo: u8) -> u16 {
    (hi * 256 + lo) as u16
}

/// The double word whose high word is `hi` and low word is `lo`.
pub open spec fn double_word_of(hi: u16, lo: u16) -> u32 {
    (hi * 65536 + lo) as u32
}

/// Joins two bytes into a big-endian word.
pub fn combine_to_word(significant_byte: Byte, insignificant_byte: Byte) -> (r: Word)
    ensures
        r == word_of(significant_byte, insignificant_byte),
{
    let hi = significant_byte as u16;
    let lo = insignificant_byte as u16;
    assert(((hi << 8) | lo) == hi * 256 + lo) by (bit_vector)
        requires
            hi < 256,
            lo < 256,
    ;
    (hi << 8) | lo
}

/// Joins two words into a big-endian double word.
pub fn combine_to_double_word(significant_word: Word, insignificant_word: Word) -> (r: DoubleWord)
    ensures
        r == double_word_of(significant_word, insignificant_word),
{
    let hi = significant_word as u32;
    let lo = insignificant_word as u32;
    assert(((hi << 16) | lo) == hi * 65536 + lo) by (bit_vector)
        requires
            hi < 65536,
            lo < 65536,
    ;
    (hi << 16) | lo
}

/// Where `value` lands when `[from_start, from_end)` is stretched onto
/// `[to_start, to_end)`: the offset from the start of the target range is
/// `value` scaled by the ratio of the two widths, rounded down, and the
/// result is capped at 255. An empty range maps everything to `to_start`.
pub open spec fn mapped(value: int, from_start: int, from_end: int, to_start: int, to_end: int) -> u8 {
    if from_end <= from_start || to_end <= to_start {
        to_start as u8
    } else {
        let v = to_start + value * (to_end - to_start) / (from_end - from_start);
        if v > 255 {
            255
        } else {
            v as u8
        }
    }
}

/// Maps `value` from the range `from` onto the range `to`.
pub fn map(value: u16, from: std::ops::Range<u16>, to: std::ops::Range<u8>) -> (r: u8)
    ensures
        r == mapped(
            value as int,
            from.start as int,
            from.end as int,
            to.start as int,
            to.end as int,
        ),
{
    if from.end <= from.start || to.end <= to.start {
        return to.start;
    }
    let span_from = (from.end - from.start) as u32;
    let span_to = (to.end - to.start) as u32;
    assert(value * span_to <= 65535 * 255) by (nonlinear_arith)
        requires
            value <= 65535,
            span_to <= 255,
    ;
    let scaled = (value as u32) * span_to / span_from;
    let v = to.start as u32 + scaled;
    if v > 255 {
        255
    } else {
        v as u8
    }
}

} // verus!
