//! From a raw sample to an index into a colour map.

use crate::colormap::{grayscale_entry, grayscale_table};
use crate::pixel::RGBAPixel;
use vstd::prelude::*;

verus! {

/// The last index of a colour map.
pub const MAX_COLOR: u64 = 255;

/// How the position of a sample inside the false-colour interval becomes an
/// index into the colour map.
#[derive(Debug)]
pub enum ToneCurve {
    /// In proportion: the interval is spread evenly over the colour map.
    Linear,
    /// By a table with one index for each distance from the lower bound of
    /// the interval, from 0 up to the interval's width. A gamma curve is
    /// handed over in this form.
    Table(Vec<u8>),
}

/// The distance of a sample from the lower bound of the interval, kept
/// within the interval.
pub open spec fn clamped_offset(value: int, min: int, width: int) -> int {
    if value <= min {
        0
    } else if value - min >= width {
        width
    } else {
        value - min
    }
}

/// The colour index of a sample on the linear scale:
/// `(value - min) * 255 / width`, kept within 0 and 255.
pub open spec fn linear_index(value: int, min: int, width: int) -> int {
    if value <= min {
        0
    } else if (value - min) * MAX_COLOR / width >= MAX_COLOR {
        MAX_COLOR as int
    } else {
        (value - min) * MAX_COLOR / width
    }
}

/// The false colours of the samples `v`: for each sample the colour that its
/// index selects in the table.
pub open spec fn false_colours(
    v: Seq<int>,
    min: int,
    width: int,
    tone: ToneCurve,
    table: Seq<RGBAPixel>,
) -> Seq<RGBAPixel> {
    Seq::new(v.len(), |i: int| table[tone.index(v[i], min, width)])
}

impl ToneCurve {
    /// A table has one entry for each offset from 0 to `width`.
    pub open spec fn fits(&self, width: int) -> bool {
        match self {
            ToneCurve::Linear => true,
            ToneCurve::Table(table) => table@.len() == width + 1,
        }
    }

    /// The colour index of a sample.
    pub open spec fn index(&self, value: int, min: int, width: int) -> int {
        match self {
            ToneCurve::Linear => linear_index(value, min, width),
            ToneCurve::Table(table) => table@[clamped_offset(value, min, width)] as int,
        }
    }

    /// The colour index of the sample `value` where the false-colour interval
    /// starts at `min` and is `width` wide.
    pub fn color_index(&self, value: i64, min: i64, width: i64) -> (index: usize)
        requires
            -0x8000_0000 <= value <= 0x7fff_ffff,
            -0x8000_0000 <= min <= 0x7fff_ffff,
            1 <= width <= 0xffff_ffff,
            self.fits(width as int),
        ensures
            index == self.index(value as int, min as int, width as int),
            index <= MAX_COLOR,
    {
        if value <= min {
            return match self {
                ToneCurve::Linear => 0,
                ToneCurve::Table(table) => table[0] as usize,
            };
        }
        let offset: u64 = (value - min) as u64;
        match self {
            ToneCurve::Linear => {
                let scaled: u64 = offset * MAX_COLOR / width as u64;
                if scaled >= MAX_COLOR {
                    MAX_COLOR as usize
                } else {
                    scaled as usize
                }
            },
            ToneCurve::Table(table) => {
                if offset >= width as u64 {
                    table[width as usize] as usize
                } else {
                    table[offset as usize] as usize
                }
            },
        }
    }
}

/// On the linear scale with the interval from 0 to 255, every 8-bit sample is
/// its own colour index.
pub proof fn lemma_linear_identity(value: int)
    requires
        0 <= value <= 255,
    ensures
        linear_index(value, 0, 255) == value,
{
}

/// On the linear scale with the interval from 0 to 255, the grayscale map
/// shows every 8-bit sample as the gray of its own level: the picture is the
/// input.
pub proof fn lemma_grayscale_reproduces_input(v: Seq<int>)
    requires
        forall|i: int| 0 <= i < v.len() ==> 0 <= #[trigger] v[i] && v[i] <= 255,
    ensures
        false_colours(v, 0, 255, ToneCurve::Linear, grayscale_table()).len() == v.len(),
        forall|i: int|
            0 <= i < v.len() ==> #[trigger] false_colours(
                v,
                0,
                255,
                ToneCurve::Linear,
                grayscale_table(),
            )[i] == (RGBAPixel { r: v[i] as u8, g: v[i] as u8, b: v[i] as u8, a: 255 }),
{
    assert forall|i: int| 0 <= i < v.len() implies #[trigger] false_colours(
        v,
        0,
        255,
        ToneCurve::Linear,
        grayscale_table(),
    )[i] == (RGBAPixel { r: v[i] as u8, g: v[i] as u8, b: v[i] as u8, a: 255 }) by {
        lemma_linear_identity(v[i]);
        assert(grayscale_table()[v[i]] == grayscale_entry(v[i]));
    }
}

/// The linear index never decreases where the sample grows.
pub proof fn lemma_linear_monotonic(a: int, b: int, min: int, width: int)
    requires
        a <= b,
        width >= 1,
    ensures
        0 <= linear_index(a, min, width) <= linear_index(b, min, width) <= 255,
{
    if a > min {
        assert((a - min) * 255 <= (b - min) * 255);
        assert((a - min) * 255 / width <= (b - min) * 255 / width) by (nonlinear_arith)
            requires
                (a - min) * 255 <= (b - min) * 255,
                width >= 1,
        ;
        assert(0 <= (a - min) * 255 / width) by (nonlinear_arith)
            requires
                0 <= (a - min) * 255,
                width >= 1,
        ;
    } else if b > min {
        assert(0 <= (b - min) * 255 / width) by (nonlinear_arith)
            requires
                0 <= (b - min) * 255,
                width >= 1,
        ;
    }
}

} // verus!
