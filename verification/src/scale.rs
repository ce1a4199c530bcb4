//! The false-colour scale: which interval of raw sample values is spread over
//! the colour map.

use crate::colormap::GAMMA_UNIT;
use crate::math::{lemma_pow2_bound, lemma_pow2_step};
use vstd::arithmetic::power2::{lemma2_to64, pow2};
use vstd::prelude::*;

verus! {

/// How the false-colour interval is chosen.
#[derive(Clone, Debug, Copy, PartialEq, Eq, Structural)]
pub enum FCScaleType {
    /// The interval that the viewer entered.
    Manual,
    /// From the smallest to the largest sample of the frame.
    Auto,
    /// Everything the sensor's bit depth can express.
    Max,
}

/// The display settings that the viewer controls.
#[derive(Debug)]
pub struct GuiParams {
    /// The display gamma, in thousandths.
    pub gamma_permille: u32,
    /// How the false-colour interval is chosen.
    pub fcscaletype: FCScaleType,
    /// The interval used in manual mode.
    pub scale_range: (i32, i32),
    /// The name of the colour map.
    pub colorscale: String,
}

/// The largest bit depth of a supported sensor.
pub const MAX_BIT_DEPTH: u8 = 16;

/// A bound of the manual interval as a 16-bit unsigned sample: its value
/// modulo 65536.
pub open spec fn wrap16(v: int) -> int {
    v % 0x1_0000
}

/// The false-colour interval for a mode.
pub open spec fn resolved_range(
    mode: FCScaleType,
    manual_range: (i32, i32),
    bit_depth: u8,
    frame_min: i32,
    frame_max: i32,
) -> (int, int) {
    match mode {
        FCScaleType::Auto => (frame_min as int, frame_max as int),
        FCScaleType::Manual => (wrap16(manual_range.0 as int), wrap16(manual_range.1 as int)),
        FCScaleType::Max => (0, pow2(bit_depth as nat) - 1),
    }
}

/// The width of the interval from `min` to `max` as a divisor: the distance
/// between the two, and 1 where that is not positive.
pub open spec fn width_of(min: int, max: int) -> int {
    if max - min >= 1 {
        max - min
    } else {
        1
    }
}

/// The width of an interval as a divisor.
pub open spec fn range_width(range: (i32, i32)) -> int {
    width_of(range.0 as int, range.1 as int)
}

/// The value of a manual bound as a 16-bit unsigned sample.
fn cast_to_sample(v: i32) -> (w: i32)
    ensures
        w == wrap16(v as int),
        0 <= w <= 0xffff,
{
    if v >= 0 {
        v % 0x1_0000
    } else {
        let below: i32 = -(v + 1);
        0xffff - below % 0x1_0000
    }
}

/// The largest sample of a sensor with `bit_depth` bits.
fn full_scale(bit_depth: u8) -> (top: i32)
    requires
        bit_depth <= MAX_BIT_DEPTH,
    ensures
        top == pow2(bit_depth as nat) - 1,
        0 <= top <= 0xffff,
{
    let mut power: i32 = 1;
    let mut bits: u8 = 0;
    proof {
        lemma2_to64();
    }
    while bits < bit_depth
        invariant
            bits <= bit_depth <= MAX_BIT_DEPTH,
            power == pow2(bits as nat),
            1 <= power,
            bits <= 16,
            power <= 0x1_0000,
            bits < 16 ==> power <= 0x8000,
        decreases bit_depth - bits,
    {
        proof {
            lemma_pow2_step(bits as nat);
            lemma_pow2_bound(bits as nat);
            lemma_pow2_bound((bits + 1) as nat);
        }
        power = 2 * power;
        bits = bits + 1;
    }
    power - 1
}

/// Resolves the false-colour interval of a frame.
///
/// In automatic mode it is the interval between the frame's smallest and
/// largest sample; in manual mode the viewer's interval, each bound cast to a
/// 16-bit unsigned sample; in full-scale mode everything from 0 to the largest
/// value of the sensor's bit depth.
pub fn resolve(
    mode: FCScaleType,
    manual_range: (i32, i32),
    bit_depth: u8,
    frame_min: i32,
    frame_max: i32,
) -> (range: (i32, i32))
    requires
        bit_depth <= MAX_BIT_DEPTH,
    ensures
        (range.0 as int, range.1 as int) == resolved_range(
            mode,
            manual_range,
            bit_depth,
            frame_min,
            frame_max,
        ),
{
    match mode {
        FCScaleType::Auto => (frame_min, frame_max),
        FCScaleType::Manual => (cast_to_sample(manual_range.0), cast_to_sample(manual_range.1)),
        FCScaleType::Max => (0, full_scale(bit_depth)),
    }
}

/// The width of an interval as the divisor of the colour scale: never less
/// than 1, so that an empty or inverted interval divides nothing by zero.
pub fn scale_width(range: (i32, i32)) -> (width: i64)
    ensures
        width == range_width(range),
        1 <= width <= 0xffff_ffff,
{
    let width: i64 = range.1 as i64 - range.0 as i64;
    if width >= 1 {
        width
    } else {
        1
    }
}

impl FCScaleType {
    /// The mode that the viewer's two switches select: automatic scaling
    /// wins over the manual interval, and full scale is what is left.
    pub fn from_flags(autoscale: bool, manual: bool) -> (mode: FCScaleType)
        ensures
            autoscale ==> mode == FCScaleType::Auto,
            !autoscale && manual ==> mode == FCScaleType::Manual,
            !autoscale && !manual ==> mode == FCScaleType::Max,
    {
        if autoscale {
            FCScaleType::Auto
        } else if manual {
            FCScaleType::Manual
        } else {
            FCScaleType::Max
        }
    }
}

impl Clone for GuiParams {
    fn clone(&self) -> (params: Self)
        ensures
            params == *self,
    {
        GuiParams {
            gamma_permille: self.gamma_permille,
            fcscaletype: self.fcscaletype,
            scale_range: self.scale_range,
            colorscale: self.colorscale.clone(),
        }
    }
}

impl Default for GuiParams {
    /// Gamma 1, full scale, and the parula map by its lower-case name.
    fn default() -> (params: Self)
        ensures
            params.gamma_permille == GAMMA_UNIT,
            params.fcscaletype == FCScaleType::Max,
            params.scale_range == (0i32, 65535i32),
            params.colorscale@ == "parula"@,
    {
        GuiParams {
            gamma_permille: GAMMA_UNIT,
            fcscaletype: FCScaleType::Max,
            scale_range: (0, 65535),
            colorscale: "parula".to_string(),
        }
    }
}

} // verus!
