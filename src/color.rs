//! Pixel colours: the three-colour palette and gray levels of a fixed bit depth.

use vstd::prelude::*;
use vstd::arithmetic::power2::{pow2, lemma2_to64};

verus! {

/// Colour of a three-colour panel.
#[derive(Copy, Clone, Debug, PartialEq, Eq, Structural, Hash, PartialOrd, Ord)]
pub enum TriColor {
    White,
    Black,
    /// The accent colour (red, or yellow on some panels).
    Red,
}

/// Bit depths that a gray plane supports.
pub open spec fn valid_bits(bits: int) -> bool {
    bits == 2 || bits == 3 || bits == 4 || bits == 8
}

/// The largest level that `bits` bits hold.
pub open spec fn max_level(bits: int) -> int {
    pow2(bits as nat) - 1
}

/// `value`, lowered to the largest level of `bits` bits where it is above it.
pub open spec fn saturate(value: int, bits: int) -> int {
    if value > max_level(bits) {
        max_level(bits)
    } else {
        value
    }
}

/// A gray colour stored in a fixed number of bits per pixel.
pub trait GrayColorInBits: Sized {
    spec fn spec_bits_per_pixel() -> int;

    spec fn spec_luma(&self) -> int;

    fn bits_per_pixel() -> (r: usize)
        ensures
            r == Self::spec_bits_per_pixel(),
            valid_bits(r as int),
    ;

    fn max_value() -> (r: u8)
        ensures
            r == max_level(Self::spec_bits_per_pixel()),
    ;

    fn luma(&self) -> (r: u8)
        ensures
            r == self.spec_luma(),
            r <= max_level(Self::spec_bits_per_pixel()),
    ;

    /// The colour of level `value`; a value above the largest level saturates to it.
    fn from_u8(value: u8) -> (r: Self)
        ensures
            r.spec_luma() == saturate(value as int, Self::spec_bits_per_pixel()),
    ;
}

/// 2 bit grayscale colour.
#[derive(Clone, Copy, Debug, PartialEq, Eq)]
pub struct Gray2(u8);

/// 3 bit grayscale colour.
#[derive(Clone, Copy, Debug, PartialEq, Eq)]
pub struct Gray3(u8);

/// 4 bit grayscale colour.
#[derive(Clone, Copy, Debug, PartialEq, Eq)]
pub struct Gray4(u8);

/// 8 bit grayscale colour.
#[derive(Clone, Copy, Debug, PartialEq, Eq)]
pub struct Gray8(u8);

impl Gray2 {
    #[verifier::type_invariant]
    spec fn level_in_range(self) -> bool {
        self.0 <= 3
    }

    pub fn new(value: u8) -> (r: Self)
        ensures
            r.spec_luma() == saturate(value as int, 2),
    {
        Self::from_u8(value)
    }
}

impl Gray3 {
    #[verifier::type_invariant]
    spec fn level_in_range(self) -> bool {
        self.0 <= 7
    }

    pub fn new(value: u8) -> (r: Self)
        ensures
            r.spec_luma() == saturate(value as int, 3),
    {
        Self::from_u8(value)
    }
}

impl Gray4 {
    #[verifier::type_invariant]
    spec fn level_in_range(self) -> bool {
        self.0 <= 15
    }

    pub fn new(value: u8) -> (r: Self)
        ensures
            r.spec_luma() == saturate(value as int, 4),
    {
        Self::from_u8(value)
    }
}

impl Gray8 {
    pub fn new(value: u8) -> (r: Self)
        ensures
            r.spec_luma() == value,
    {
        proof {
            lemma2_to64();
        }
        Self::from_u8(value)
    }
}

impl GrayColorInBits for Gray2 {
    open spec fn spec_bits_per_pixel() -> int {
        2
    }

    closed spec fn spec_luma(&self) -> int {
        self.0 as int
    }

    fn bits_per_pixel() -> (r: usize) {
        2
    }

    fn max_value() -> (r: u8) {
        proof {
            lemma2_to64();
        }
        3
    }

    fn luma(&self) -> (r: u8) {
        proof {
            use_type_invariant(self);
            lemma2_to64();
        }
        self.0
    }

    fn from_u8(value: u8) -> (r: Self) {
        proof {
            lemma2_to64();
        }
        if value > 3 {
            Gray2(3)
        } else {
            Gray2(value)
        }
    }
}

impl GrayColorInBits for Gray3 {
    open spec fn spec_bits_per_pixel() -> int {
        3
    }

    closed spec fn spec_luma(&self) -> int {
        self.0 as int
    }

    fn bits_per_pixel() -> (r: usize) {
        3
    }

    fn max_value() -> (r: u8) {
        proof {
            lemma2_to64();
        }
        7
    }

    fn luma(&self) -> (r: u8) {
        proof {
            use_type_invariant(self);
            lemma2_to64();
        }
        self.0
    }

    fn from_u8(value: u8) -> (r: Self) {
        proof {
            lemma2_to64();
        }
        if value > 7 {
            Gray3(7)
        } else {
            Gray3(value)
        }
    }
}

impl GrayColorInBits for Gray4 {
    open spec fn spec_bits_per_pixel() -> int {
        4
    }

    closed spec fn spec_luma(&self) -> int {
        self.0 as int
    }

    fn bits_per_pixel() -> (r: usize) {
        4
    }

    fn max_value() -> (r: u8) {
        proof {
            lemma2_to64();
        }
        15
    }

    fn luma(&self) -> (r: u8) {
        proof {
            use_type_invariant(self);
            lemma2_to64();
        }
        self.0
    }

    fn from_u8(value: u8) -> (r: Self) {
        proof {
            lemma2_to64();
        }
        if value > 15 {
            Gray4(15)
        } else {
            Gray4(value)
        }
    }
}

impl GrayColorInBits for Gray8 {
    open spec fn spec_bits_per_pixel() -> int {
        8
    }

    closed spec fn spec_luma(&self) -> int {
        self.0 as int
    }

    fn bits_per_pixel() -> (r: usize) {
        8
    }

    fn max_value() -> (r: u8) {
        proof {
            lemma2_to64();
        }
        255
    }

    fn luma(&self) -> (r: u8) {
        proof {
            lemma2_to64();
        }
        self.0
    }

    fn from_u8(value: u8) -> (r: Self) {
        proof {
            lemma2_to64();
        }
        Gray8(value)
    }
}

} // verus!
