use vstd::prelude::*;

use crate::mem::Word;

verus! {

/// An RGBA pixel colour, eight bits per channel.
#[derive(Clone, Copy, Debug, PartialEq, Eq, Structural)]
pub struct Color {
    pub red: u8,
    pub green: u8,
    pub blue: u8,
    pub alpha: u8,
}

/// A four-bit channel widened to eight bits (0xF becomes 0xFF).
pub open spec fn widened(n: u16) -> u8 {
    (n * 17) as u8
}

/// The colour packed in `w` as four-bit red, green, blue and alpha, red in
/// the top nibble.
pub open spec fn color_of_word(w: u16) -> Color {
    Color {
        red: widened((w / 4096) % 16),
        green: widened((w / 256) % 16),
        blue: widened((w / 16) % 16),
        alpha: widened(w % 16),
    }
}

/// `c` packed into a word, keeping the top four bits of each channel.
pub open spec fn word_of_color(c: Color) -> u16 {
    ((c.red / 16) * 4096 + (c.green / 16) * 256 + (c.blue / 16) * 16 + c.alpha / 16) as u16
}

impl Color {
    /// Opaque black.
    pub open spec fn black_spec() -> Color {
        Color { red: 0, green: 0, blue: 0, alpha: 255 }
    }

    /// The colour packed in `w`.
    pub fn from_word(w: Word) -> (r: Color)
        ensures
            r == color_of_word(w),
    {
        Color {
            red: ((w / 4096) % 16) as u8 * 17,
            green: ((w / 256) % 16) as u8 * 17,
            blue: ((w / 16) % 16) as u8 * 17,
            alpha: (w % 16) as u8 * 17,
        }
    }

    /// This colour packed into a word.
    pub fn as_word(&self) -> (r: Word)
        ensures
            r == word_of_color(*self),
    {
        (self.red / 16) as u16 * 4096 + (self.green / 16) as u16 * 256 + (self.blue / 16) as u16
            * 16 + (self.alpha / 16) as u16
    }

    pub fn white() -> (r: Color)
        ensures
            r == (Color { red: 255, green: 255, blue: 255, alpha: 255 }),
    {
        Color { red: u8::MAX, green: u8::MAX, blue: u8::MAX, alpha: u8::MAX }
    }

    pub fn black() -> (r: Color)
        ensures
            r == Color::black_spec(),
    {
        Color { red: u8::MIN, green: u8::MIN, blue: u8::MIN, alpha: u8::MAX }
    }

    pub fn r(&self) -> (r: u8)
        ensures
            r == self.red,
    {
        self.red
    }

    pub fn g(&self) -> (r: u8)
        ensures
            r == self.green,
    {
        self.green
    }

    pub fn b(&self) -> (r: u8)
        ensures
            r == self.blue,
    {
        self.blue
    }
}

/// Packing a colour read from a word gives the word back.
pub proof fn word_color_round_trip(w: u16)
    ensures
        word_of_color(color_of_word(w)) == w,
{
    lemma_narrowed((w / 4096) % 16);
    lemma_narrowed((w / 256) % 16);
    lemma_narrowed((w / 16) % 16);
    lemma_narrowed(w % 16);
    assert(((w / 4096) % 16) * 4096 + ((w / 256) % 16) * 256 + ((w / 16) % 16) * 16 + w % 16 == w)
        by (bit_vector);
}

proof fn lemma_narrowed(n: u16)
    requires
        n < 16,
    ensures
        widened(n) / 16 == n,
{
    assert((n * 17) / 16 == n) by (nonlinear_arith)
        requires
            n < 16,
    ;
}

} // verus!
