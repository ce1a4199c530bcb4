//! Pixel types: monochrome integer samples and 8-bit colour pixels.

use vstd::arithmetic::power2::{lemma2_to64, pow2};
use vstd::bits::{lemma_u16_shr_is_div, lemma_u32_shl_is_mul, lemma_u8_shr_is_div};
use vstd::prelude::*;

verus! {

/// A value that can be stored in a frame buffer.
pub trait Pixel: Sized + Copy + core::fmt::Debug {

}

/// A monochrome sample: an unsigned integer of a fixed width.
///
/// Every sample stands for the mathematical integer `value()`, which lies
/// between 0 and `max_int()`. Arithmetic on samples is stated over these
/// integers.
pub trait MonoPixel: Pixel {
    /// The integer this sample stands for.
    spec fn value(self) -> int;

    /// The largest integer a sample of this type can hold.
    spec fn max_int() -> int;

    /// The number of bits of a sample.
    spec fn bit_width() -> nat;

    /// A sample lies within the bounds of its type, which are those of an
    /// unsigned integer of up to 16 bits.
    proof fn lemma_range(self)
        ensures
            0 <= self.value() <= Self::max_int() <= 0xffff,
            Self::max_int() == pow2(Self::bit_width()) - 1,
            0 < Self::bit_width() <= 16,
    ;

    /// The sample 0.
    fn zero() -> (r: Self)
        ensures
            r.value() == 0,
    ;

    /// The sample 1.
    fn one() -> (r: Self)
        ensures
            r.value() == 1,
    ;

    /// The smallest sample of the type.
    fn min_value() -> (r: Self)
        ensures
            r.value() == 0,
    ;

    /// The largest sample of the type.
    fn max_value() -> (r: Self)
        ensures
            r.value() == Self::max_int(),
    ;

    /// The sample as a 64-bit integer.
    fn to_i64(self) -> (r: i64)
        ensures
            r == self.value(),
    ;

    /// The sample that stands for `v`, or `None` where the type cannot hold `v`.
    fn from_i64(v: i64) -> (r: Option<Self>)
        ensures
            r is Some <==> 0 <= v <= Self::max_int(),
            r is Some ==> r->Some_0.value() == v,
    ;

    /// Shifts the sample left by `shift` bits: multiplies it by two to the
    /// power `shift` and drops what does not fit the type.
    fn shift_left(self, shift: usize) -> (r: Self)
        requires
            shift < Self::bit_width(),
        ensures
            r.value() == (self.value() * pow2(shift as nat)) % (pow2(Self::bit_width()) as int),
    ;

    /// Shifts the sample right by `shift` bits: divides it by two to the
    /// power `shift`, rounding down.
    fn shift_right(self, shift: usize) -> (r: Self)
        requires
            shift < Self::bit_width(),
        ensures
            r.value() == self.value() / (pow2(shift as nat) as int),
    ;
}

impl Pixel for u8 {

}

impl Pixel for u16 {

}

impl MonoPixel for u8 {
    open spec fn value(self) -> int {
        self as int
    }

    open spec fn max_int() -> int {
        0xff
    }

    open spec fn bit_width() -> nat {
        8
    }

    proof fn lemma_range(self) {
        lemma2_to64();
    }

    fn zero() -> u8 {
        0
    }

    fn one() -> u8 {
        1
    }

    fn min_value() -> u8 {
        u8::MIN
    }

    fn max_value() -> u8 {
        u8::MAX
    }

    fn to_i64(self) -> i64 {
        self as i64
    }

    fn from_i64(v: i64) -> Option<u8> {
        if 0 <= v && v <= 0xff {
            Some(v as u8)
        } else {
            None
        }
    }

    fn shift_left(self, shift: usize) -> u8 {
        proof {
            let s = shift as u32;
            let wide = (self as u32) << s;
            assert(self << shift == (wide % 0x100) as u8) by (bit_vector)
                requires
                    s == shift,
                    shift < 8,
                    wide == (self as u32) << s,
            ;
            lemma2_to64();
            assert(self * pow2(s as nat) <= 0xff * 0x80) by (nonlinear_arith)
                requires
                    0 <= self <= 0xff,
                    0 <= pow2(s as nat) <= 0x80,
            ;
            lemma_u32_shl_is_mul(self as u32, s);
        }
        self << shift
    }

    fn shift_right(self, shift: usize) -> u8 {
        proof {
            let s = shift as u8;
            assert(self >> shift == self >> s) by (bit_vector)
                requires
                    s == shift,
                    shift < 8,
            ;
            lemma_u8_shr_is_div(self, s);
        }
        self >> shift
    }
}

impl MonoPixel for u16 {
    open spec fn value(self) -> int {
        self as int
    }

    open spec fn max_int() -> int {
        0xffff
    }

    open spec fn bit_width() -> nat {
        16
    }

    proof fn lemma_range(self) {
        lemma2_to64();
    }

    fn zero() -> u16 {
        0
    }

    fn one() -> u16 {
        1
    }

    fn min_value() -> u16 {
        u16::MIN
    }

    fn max_value() -> u16 {
        u16::MAX
    }

    fn to_i64(self) -> i64 {
        self as i64
    }

    fn from_i64(v: i64) -> Option<u16> {
        if 0 <= v && v <= 0xffff {
            Some(v as u16)
        } else {
            None
        }
    }

    fn shift_left(self, shift: usize) -> u16 {
        proof {
            let s = shift as u32;
            let wide = (self as u32) << s;
            assert(self << shift == (wide % 0x1_0000) as u16) by (bit_vector)
                requires
                    s == shift,
                    shift < 16,
                    wide == (self as u32) << s,
            ;
            lemma2_to64();
            assert(self * pow2(s as nat) <= 0xffff * 0x8000) by (nonlinear_arith)
                requires
                    0 <= self <= 0xffff,
                    0 <= pow2(s as nat) <= 0x8000,
            ;
            lemma_u32_shl_is_mul(self as u32, s);
        }
        self << shift
    }

    fn shift_right(self, shift: usize) -> u16 {
        proof {
            let s = shift as u16;
            assert(self >> shift == self >> s) by (bit_vector)
                requires
                    s == shift,
                    shift < 16,
            ;
            lemma_u16_shr_is_div(self, s);
        }
        self >> shift
    }
}

/// A pixel with red, green, and blue channels of 8 bits each.
#[derive(Clone, Copy, Debug, PartialEq, Eq, Structural)]
pub struct RGBPixel {
    /// The red channel.
    pub r: u8,
    /// The green channel.
    pub g: u8,
    /// The blue channel.
    pub b: u8,
}

/// A pixel with red, green, blue, and alpha channels of 8 bits each.
#[derive(Clone, Copy, Debug, PartialEq, Eq, Structural)]
pub struct RGBAPixel {
    /// The red channel.
    pub r: u8,
    /// The green channel.
    pub g: u8,
    /// The blue channel.
    pub b: u8,
    /// The alpha channel.
    pub a: u8,
}

/// The bytes of pixels of four channels: red, green, blue, alpha.
pub open spec fn rgba_bytes(pixels: Seq<RGBAPixel>) -> Seq<u8> {
    Seq::new(
        4 * pixels.len(),
        |k: int| if k % 4 == 0 {
            pixels[k / 4].r
        } else if k % 4 == 1 {
            pixels[k / 4].g
        } else if k % 4 == 2 {
            pixels[k / 4].b
        } else {
            pixels[k / 4].a
        },
    )
}

/// The bytes of pixels of three channels: red, green, blue.
pub open spec fn rgb_bytes(pixels: Seq<RGBPixel>) -> Seq<u8> {
    Seq::new(
        3 * pixels.len(),
        |k: int| if k % 3 == 0 {
            pixels[k / 3].r
        } else if k % 3 == 1 {
            pixels[k / 3].g
        } else {
            pixels[k / 3].b
        },
    )
}

impl Pixel for RGBPixel {

}

impl Pixel for RGBAPixel {

}

impl Default for RGBPixel {
    /// Black.
    fn default() -> (p: Self)
        ensures
            p == (RGBPixel { r: 0, g: 0, b: 0 }),
    {
        RGBPixel { r: 0, g: 0, b: 0 }
    }
}

impl Default for RGBAPixel {
    /// Opaque black.
    fn default() -> (p: Self)
        ensures
            p == (RGBAPixel { r: 0, g: 0, b: 0, a: 255 }),
    {
        RGBAPixel { r: 0, g: 0, b: 0, a: 255 }
    }
}

} // verus!
