//! Shortest decimal text for IEEE-754 binary floating-point values.
//!
//! A value is given by its bit pattern, single or double precision, and its
//! text is appended to a byte vector. The text is the shortest run of decimal
//! digits that lies between the scaled halfway points from the value to its
//! neighbours, written with the point in place where the number is of
//! moderate size (`0.001234`, `42.0`) and with an exponent where it is not
//! (`1.1e-64`).
//!
//! Every function states what it computes over the integers, and these
//! statements are proved. Beyond them the library proves, for either
//! precision (`grisu32`, `grisu64`):
//!
//! - `lemma_text_reads_back`: the text, read as a decimal number, has the
//!   sign of the value and lies strictly between the halfway points to its
//!   neighbours, so that reading it with rounding to nearest gives the value
//!   back;
//! - `lemma_no_shorter_digits`: no shorter run of digits lies between the
//!   scaled halfway points as digit generation takes them;
//! - `lemma_form`, `lemma_whole`, `lemma_sign`, `lemma_bytes`,
//!   `lemma_text_len`: where the text has an exponent, that whole numbers
//!   end in `.0`, that the text begins with `-` for a set sign bit only,
//!   which bytes it is made of, and how long it can get.
//!
//! These rest on `accuracy32` and `accuracy64`, where every cached power of
//! ten is shown to be rounded to nearest, and on `log10`, where the rounded
//! decimal logarithm that picks the cached power is shown to be one.
//!
//! The bit patterns of infinities and of values that are not numbers are
//! taken as they stand: their text is that of the number which their fields
//! would make in a binade above the largest one.

use vstd::prelude::*;

pub mod accuracy32;
pub mod accuracy64;
pub mod binary;
pub mod cached_power;
pub mod decimal;
pub mod digit_gen;
pub mod diyf32;
pub mod diyf64;
pub mod exact;
pub mod grisu32;
pub mod grisu64;
pub mod log10;
pub mod powers;
pub mod prettify;
pub mod reading;

verus! {

/// A single-precision value, held as its bit pattern.
#[derive(Copy, Clone, Debug)]
pub struct Binary32 {
    pub bits: u32,
}

/// A double-precision value, held as its bit pattern.
#[derive(Copy, Clone, Debug)]
pub struct Binary64 {
    pub bits: u64,
}

impl Binary32 {
    pub fn from_bits(bits: u32) -> (r: Binary32)
        ensures
            r.bits == bits,
    {
        Binary32 { bits }
    }

    pub fn to_bits(self) -> (bits: u32)
        ensures
            bits == self.bits,
    {
        self.bits
    }
}

impl Binary64 {
    pub fn from_bits(bits: u64) -> (r: Binary64)
        ensures
            r.bits == bits,
    {
        Binary64 { bits }
    }

    pub fn to_bits(self) -> (bits: u64)
        ensures
            bits == self.bits,
    {
        self.bits
    }
}

/// A floating-point value that can be written as text.
pub trait Floating: Sized {
    /// The text of the value, in ASCII.
    spec fn text(self) -> Seq<u8>;

    /// Appends the text of the value to `wr`.
    fn write(self, wr: &mut Vec<u8>)
        ensures
            final(wr)@ == old(wr)@ + self.text(),
    ;
}

impl Floating for Binary32 {
    open spec fn text(self) -> Seq<u8> {
        grisu32::spec_dtoa(self.bits)
    }

    fn write(self, wr: &mut Vec<u8>) {
        grisu32::dtoa(wr, self.bits)
    }
}

impl Floating for Binary64 {
    open spec fn text(self) -> Seq<u8> {
        grisu64::spec_dtoa(self.bits)
    }

    fn write(self, wr: &mut Vec<u8>) {
        grisu64::dtoa(wr, self.bits)
    }
}

/// Appends the text of `value` to `wr`.
pub fn write<V: Floating>(wr: &mut Vec<u8>, value: V)
    ensures
        final(wr)@ == old(wr)@ + value.text(),
{
    value.write(wr)
}

} // verus!
