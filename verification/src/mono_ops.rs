//! Arithmetic on frames of monochrome samples, pixel by pixel.

use crate::framedata::FrameData;
use crate::pixel::MonoPixel;
use vstd::arithmetic::power2::pow2;
use vstd::prelude::*;
use vstd::std_specs::ops::{AddSpecImpl, DivSpecImpl, MulSpecImpl, ShlSpecImpl, ShrSpecImpl, SubSpecImpl};

verus! {

/// A sample of type `T` shifted left by `shift` bits: the sample times two to
/// the power `shift`, less what does not fit the type.
pub open spec fn shifted_left<T: MonoPixel>(value: int, shift: usize) -> int {
    (value * pow2(shift as nat)) % (pow2(T::bit_width()) as int)
}

/// A sample shifted right by `shift` bits: the sample divided by two to the
/// power `shift`, rounded down.
pub open spec fn shifted_right(value: int, shift: usize) -> int {
    value / (pow2(shift as nat) as int)
}

/// The sum of two samples, in the type of the first.
fn add_pixels<T: MonoPixel, T2: MonoPixel>(a: T, b: T2) -> (sum: T)
    requires
        a.value() + b.value() <= T::max_int(),
    ensures
        sum.value() == a.value() + b.value(),
{
    proof {
        a.lemma_range();
        b.lemma_range();
    }
    T::from_i64(a.to_i64() + b.to_i64()).unwrap()
}

/// The difference of two samples, in the type of the first.
fn sub_pixels<T: MonoPixel, T2: MonoPixel>(a: T, b: T2) -> (difference: T)
    requires
        b.value() <= a.value(),
    ensures
        difference.value() == a.value() - b.value(),
{
    proof {
        a.lemma_range();
        b.lemma_range();
    }
    T::from_i64(a.to_i64() - b.to_i64()).unwrap()
}

/// The product of two samples, in the type of the first.
fn mul_pixels<T: MonoPixel, T2: MonoPixel>(a: T, b: T2) -> (product: T)
    requires
        a.value() * b.value() <= T::max_int(),
    ensures
        product.value() == a.value() * b.value(),
{
    proof {
        a.lemma_range();
        b.lemma_range();
        assert(0 <= a.value() * b.value()) by (nonlinear_arith)
            requires
                0 <= a.value(),
                0 <= b.value(),
        ;
    }
    let wide: u64 = a.to_i64() as u64 * b.to_i64() as u64;
    T::from_i64(wide as i64).unwrap()
}

/// The quotient of two samples, rounded down.
fn div_pixels<T: MonoPixel>(a: T, b: T) -> (quotient: T)
    requires
        b.value() != 0,
    ensures
        quotient.value() == a.value() / b.value(),
{
    proof {
        a.lemma_range();
        b.lemma_range();
        assert(0 <= a.value() / b.value() <= a.value()) by (nonlinear_arith)
            requires
                0 <= a.value(),
                0 < b.value(),
        ;
    }
    let wide: u64 = a.to_i64() as u64 / b.to_i64() as u64;
    T::from_i64(wide as i64).unwrap()
}

/// A sample shifted left, the bits that leave the type dropped.
fn shl_pixel<T: MonoPixel>(a: T, shift: usize) -> (shifted: T)
    requires
        shift < T::bit_width(),
    ensures
        shifted.value() == shifted_left::<T>(a.value(), shift),
{
    a.shift_left(shift)
}

/// A sample shifted right.
fn shr_pixel<T: MonoPixel>(a: T, shift: usize) -> (shifted: T)
    requires
        shift < T::bit_width(),
    ensures
        shifted.value() == shifted_right(a.value(), shift),
{
    a.shift_right(shift)
}

/// The frame whose pixel `i` is what `f` makes of pixel `i` of `a` and of
/// `operand`.
fn map_pixels<T: MonoPixel, A: Copy, F: Fn(T, A) -> T>(a: &FrameData<T>, operand: A, f: F) -> (out:
    FrameData<T>)
    requires
        forall|i: int|
            0 <= i < a.data@.len() ==> call_requires(f, (#[trigger] a.data@[i], operand)),
    ensures
        out.width == a.width,
        out.height == a.height,
        out.data@.len() == a.data@.len(),
        forall|i: int|
            0 <= i < a.data@.len() ==> call_ensures(
                f,
                (a.data@[i], operand),
                #[trigger] out.data@[i],
            ),
{
    let n: usize = a.data.len();
    let mut data: Vec<T> = Vec::new();
    let mut i: usize = 0;
    while i < n
        invariant
            i <= n,
            n == a.data@.len(),
            data@.len() == i,
            forall|k: int| 0 <= k < n ==> call_requires(f, (#[trigger] a.data@[k], operand)),
            forall|k: int|
                0 <= k < i ==> call_ensures(f, (a.data@[k], operand), #[trigger] data@[k]),
        decreases n - i,
    {
        let p: T = f(a.data[i], operand);
        data.push(p);
        i = i + 1;
    }
    FrameData { width: a.width, height: a.height, data }
}

/// The frame whose pixel `i` is what `f` makes of pixel `i` of `a` and pixel
/// `i` of `b`.
fn zip_pixels<T: MonoPixel, T2: MonoPixel, F: Fn(T, T2) -> T>(
    a: &FrameData<T>,
    b: &FrameData<T2>,
    f: F,
) -> (out: FrameData<T>)
    requires
        a.data@.len() == b.data@.len(),
        forall|i: int|
            0 <= i < a.data@.len() ==> call_requires(f, (#[trigger] a.data@[i], b.data@[i])),
    ensures
        out.width == a.width,
        out.height == a.height,
        out.data@.len() == a.data@.len(),
        forall|i: int|
            0 <= i < a.data@.len() ==> call_ensures(
                f,
                (a.data@[i], b.data@[i]),
                #[trigger] out.data@[i],
            ),
{
    let n: usize = a.data.len();
    let mut data: Vec<T> = Vec::new();
    let mut i: usize = 0;
    while i < n
        invariant
            i <= n,
            n == a.data@.len(),
            n == b.data@.len(),
            data@.len() == i,
            forall|k: int|
                0 <= k < n ==> call_requires(f, (#[trigger] a.data@[k], b.data@[k])),
            forall|k: int|
                0 <= k < i ==> call_ensures(f, (a.data@[k], b.data@[k]), #[trigger] data@[k]),
        decreases n - i,
    {
        let p: T = f(a.data[i], b.data[i]);
        data.push(p);
        i = i + 1;
    }
    FrameData { width: a.width, height: a.height, data }
}

impl<T: MonoPixel> FrameData<T> {
    /// The integer that pixel `i` of the buffer stands for.
    pub open spec fn value_at(&self, i: int) -> int {
        self.data@[i].value()
    }

    /// Two frames have the same numbers of columns, rows and pixels.
    pub open spec fn same_shape<T2: MonoPixel>(&self, other: &FrameData<T2>) -> bool {
        &&& self.width == other.width
        &&& self.height == other.height
        &&& self.data@.len() == other.data@.len()
    }

    /// A frame of the given size whose every pixel is `fill`.
    fn filled(width: u32, height: u32, fill: T) -> (frame: FrameData<T>)
        requires
            width * height <= usize::MAX,
        ensures
            frame.wf(),
            frame.width == width,
            frame.height == height,
            forall|i: int| 0 <= i < frame.data@.len() ==> frame.data@[i] == fill,
    {
        let count: usize = width as usize * height as usize;
        let mut data: Vec<T> = Vec::new();
        let mut i: usize = 0;
        while i < count
            invariant
                i <= count,
                data@.len() == i,
                forall|k: int| 0 <= k < i ==> data@[k] == fill,
            decreases count - i,
        {
            data.push(fill);
            i = i + 1;
        }
        FrameData { width, height, data }
    }

    /// A frame of the given size whose every sample is 0.
    pub fn zeros(width: u32, height: u32) -> (frame: FrameData<T>)
        requires
            width * height <= usize::MAX,
        ensures
            frame.wf(),
            frame.width == width,
            frame.height == height,
            forall|i: int| 0 <= i < frame.data@.len() ==> frame.value_at(i) == 0,
    {
        Self::filled(width, height, T::zero())
    }

    /// A frame of the given size whose every sample is 1.
    pub fn ones(width: u32, height: u32) -> (frame: FrameData<T>)
        requires
            width * height <= usize::MAX,
        ensures
            frame.wf(),
            frame.width == width,
            frame.height == height,
            forall|i: int| 0 <= i < frame.data@.len() ==> frame.value_at(i) == 1,
    {
        Self::filled(width, height, T::one())
    }
}

/// Shifting a frame left asks for a shift below the width of a sample; the
/// result is what `shl` states.
impl<T: MonoPixel> ShlSpecImpl<usize> for &FrameData<T> {
    open spec fn obeys_shl_spec() -> bool {
        false
    }

    open spec fn shl_req(self, shift: usize) -> bool {
        shift < T::bit_width()
    }

    open spec fn shl_spec(self, shift: usize) -> FrameData<T> {
        *self
    }
}

impl<T: MonoPixel> core::ops::Shl<usize> for &FrameData<T> {
    type Output = FrameData<T>;

    /// The frame with every sample shifted left by `shift` bits.
    fn shl(self, shift: usize) -> (shifted: FrameData<T>)
        ensures
            shifted.same_shape(self),
            forall|i: int|
                0 <= i < self.data@.len() ==> #[trigger] shifted.value_at(i) == shifted_left::<T>(
                    self.value_at(i),
                    shift,
                ),
    {
        map_pixels(self, shift, shl_pixel::<T>)
    }
}

/// Adding two frames asks for frames of one shape whose sums fit the sample
/// type; the result is what `add` states.
impl<T: MonoPixel, T2: MonoPixel> AddSpecImpl<&FrameData<T2>> for &FrameData<T> {
    open spec fn obeys_add_spec() -> bool {
        false
    }

    open spec fn add_req(self, other: &FrameData<T2>) -> bool {
        &&& self.same_shape(other)
        &&& forall|i: int|
            0 <= i < self.data@.len() ==> #[trigger] self.value_at(i) + other.value_at(i)
                <= T::max_int()
    }

    open spec fn add_spec(self, other: &FrameData<T2>) -> FrameData<T> {
        *self
    }
}

impl<T: MonoPixel, T2: MonoPixel> core::ops::Add<&FrameData<T2>> for &FrameData<T> {
    type Output = FrameData<T>;

    /// The sum of two frames of one size, pixel by pixel.
    fn add(self, other: &FrameData<T2>) -> (sum: FrameData<T>)
        ensures
            sum.same_shape(self),
            forall|i: int|
                0 <= i < self.data@.len() ==> #[trigger] sum.value_at(i) == self.value_at(i)
                    + other.value_at(i),
    {
        proof {
            assert forall|i: int| 0 <= i < self.data@.len() implies call_requires(
                add_pixels::<T, T2>,
                (#[trigger] self.data@[i], other.data@[i]),
            ) by {
                assert(self.value_at(i) + other.value_at(i) <= T::max_int());
            }
        }
        zip_pixels(self, other, add_pixels::<T, T2>)
    }
}

/// Shifting a frame right asks for a shift below the width of a sample; the
/// result is what `shr` states.
impl<T: MonoPixel> ShrSpecImpl<usize> for &FrameData<T> {
    open spec fn obeys_shr_spec() -> bool {
        false
    }

    open spec fn shr_req(self, shift: usize) -> bool {
        shift < T::bit_width()
    }

    open spec fn shr_spec(self, shift: usize) -> FrameData<T> {
        *self
    }
}

impl<T: MonoPixel> core::ops::Shr<usize> for &FrameData<T> {
    type Output = FrameData<T>;

    /// The frame with every sample shifted right by `shift` bits.
    fn shr(self, shift: usize) -> (shifted: FrameData<T>)
        ensures
            shifted.same_shape(self),
            forall|i: int|
                0 <= i < self.data@.len() ==> #[trigger] shifted.value_at(i) == shifted_right(
                    self.value_at(i),
                    shift,
                ),
    {
        map_pixels(self, shift, shr_pixel::<T>)
    }
}

impl<T: MonoPixel> core::ops::ShlAssign<usize> for FrameData<T> {
    /// Shifts every sample left by `shift` bits.
    fn shl_assign(&mut self, shift: usize)
        requires
            shift < T::bit_width(),
        ensures
            final(self).same_shape(old(self)),
            forall|i: int|
                0 <= i < old(self).data@.len() ==> #[trigger] final(self).value_at(i)
                    == shifted_left::<T>(old(self).value_at(i), shift),
    {
        let shifted = map_pixels(self, shift, shl_pixel::<T>);
        self.data = shifted.data;
    }
}

/// Subtracting a frame asks for frames of one shape and differences that are
/// not negative; the result is what `sub` states.
impl<T: MonoPixel, T2: MonoPixel> SubSpecImpl<&FrameData<T2>> for &FrameData<T> {
    open spec fn obeys_sub_spec() -> bool {
        false
    }

    open spec fn sub_req(self, other: &FrameData<T2>) -> bool {
        &&& self.same_shape(other)
        &&& forall|i: int|
            0 <= i < self.data@.len() ==> other.value_at(i) <= #[trigger] self.value_at(i)
    }

    open spec fn sub_spec(self, other: &FrameData<T2>) -> FrameData<T> {
        *self
    }
}

impl<T: MonoPixel, T2: MonoPixel> core::ops::Sub<&FrameData<T2>> for &FrameData<T> {
    type Output = FrameData<T>;

    /// The difference of two frames of one size, pixel by pixel.
    fn sub(self, other: &FrameData<T2>) -> (difference: FrameData<T>)
        ensures
            difference.same_shape(self),
            forall|i: int|
                0 <= i < self.data@.len() ==> #[trigger] difference.value_at(i) == self.value_at(
                    i,
                ) - other.value_at(i),
    {
        proof {
            assert forall|i: int| 0 <= i < self.data@.len() implies call_requires(
                sub_pixels::<T, T2>,
                (#[trigger] self.data@[i], other.data@[i]),
            ) by {
                assert(other.value_at(i) <= self.value_at(i));
            }
        }
        zip_pixels(self, other, sub_pixels::<T, T2>)
    }
}

impl<T: MonoPixel> core::ops::ShrAssign<usize> for FrameData<T> {
    /// Shifts every sample right by `shift` bits.
    fn shr_assign(&mut self, shift: usize)
        requires
            shift < T::bit_width(),
        ensures
            final(self).same_shape(old(self)),
            forall|i: int|
                0 <= i < old(self).data@.len() ==> #[trigger] final(self).value_at(i)
                    == shifted_right(old(self).value_at(i), shift),
    {
        let shifted = map_pixels(self, shift, shr_pixel::<T>);
        self.data = shifted.data;
    }
}

impl<T: MonoPixel, T2: MonoPixel> core::ops::AddAssign<&FrameData<T2>> for FrameData<T> {
    /// Adds a frame of the same size to this one, pixel by pixel.
    fn add_assign(&mut self, other: &FrameData<T2>)
        requires
            old(self).same_shape(other),
            forall|i: int|
                0 <= i < old(self).data@.len() ==> #[trigger] old(self).value_at(i)
                    + other.value_at(i) <= T::max_int(),
        ensures
            final(self).same_shape(old(self)),
            forall|i: int|
                0 <= i < old(self).data@.len() ==> #[trigger] final(self).value_at(i) == old(
                    self,
                ).value_at(i) + other.value_at(i),
    {
        proof {
            assert forall|i: int| 0 <= i < self.data@.len() implies call_requires(
                add_pixels::<T, T2>,
                (#[trigger] self.data@[i], other.data@[i]),
            ) by {
                assert(self.value_at(i) + other.value_at(i) <= T::max_int());
            }
        }
        let sum = zip_pixels(self, other, add_pixels::<T, T2>);
        self.data = sum.data;
    }
}

impl<T: MonoPixel, T2: MonoPixel> core::ops::SubAssign<&FrameData<T2>> for FrameData<T> {
    /// Subtracts a frame of the same size from this one, pixel by pixel.
    fn sub_assign(&mut self, other: &FrameData<T2>)
        requires
            old(self).same_shape(other),
            forall|i: int|
                0 <= i < old(self).data@.len() ==> other.value_at(i) <= #[trigger] old(
                    self,
                ).value_at(i),
        ensures
            final(self).same_shape(old(self)),
            forall|i: int|
                0 <= i < old(self).data@.len() ==> #[trigger] final(self).value_at(i) == old(
                    self,
                ).value_at(i) - other.value_at(i),
    {
        proof {
            assert forall|i: int| 0 <= i < self.data@.len() implies call_requires(
                sub_pixels::<T, T2>,
                (#[trigger] self.data@[i], other.data@[i]),
            ) by {
                assert(other.value_at(i) <= self.value_at(i));
            }
        }
        let difference = zip_pixels(self, other, sub_pixels::<T, T2>);
        self.data = difference.data;
    }
}

/// Multiplying a frame by a sample asks for products that fit the sample
/// type; the result is what `mul` states.
impl<T: MonoPixel, T2: MonoPixel> MulSpecImpl<T2> for &FrameData<T> {
    open spec fn obeys_mul_spec() -> bool {
        false
    }

    open spec fn mul_req(self, factor: T2) -> bool {
        forall|i: int|
            0 <= i < self.data@.len() ==> #[trigger] self.value_at(i) * factor.value()
                <= T::max_int()
    }

    open spec fn mul_spec(self, factor: T2) -> FrameData<T> {
        *self
    }
}

impl<T: MonoPixel, T2: MonoPixel> core::ops::Mul<T2> for &FrameData<T> {
    type Output = FrameData<T>;

    /// The frame with every sample multiplied by `factor`.
    fn mul(self, factor: T2) -> (product: FrameData<T>)
        ensures
            product.same_shape(self),
            forall|i: int|
                0 <= i < self.data@.len() ==> #[trigger] product.value_at(i) == self.value_at(i)
                    * factor.value(),
    {
        proof {
            assert forall|i: int| 0 <= i < self.data@.len() implies call_requires(
                mul_pixels::<T, T2>,
                (#[trigger] self.data@[i], factor),
            ) by {
                assert(self.value_at(i) * factor.value() <= T::max_int());
            }
        }
        map_pixels(self, factor, mul_pixels::<T, T2>)
    }
}

/// Dividing a frame by a sample asks for a divisor other than 0; the result
/// is what `div` states.
impl<T: MonoPixel> DivSpecImpl<T> for &FrameData<T> {
    open spec fn obeys_div_spec() -> bool {
        false
    }

    open spec fn div_req(self, divisor: T) -> bool {
        divisor.value() != 0
    }

    open spec fn div_spec(self, divisor: T) -> FrameData<T> {
        *self
    }
}

impl<T: MonoPixel> core::ops::Div<T> for &FrameData<T> {
    type Output = FrameData<T>;

    /// The frame with every sample divided by `divisor`, rounded down.
    fn div(self, divisor: T) -> (quotient: FrameData<T>)
        ensures
            quotient.same_shape(self),
            forall|i: int|
                0 <= i < self.data@.len() ==> #[trigger] quotient.value_at(i) == self.value_at(i)
                    / divisor.value(),
    {
        map_pixels(self, divisor, div_pixels::<T>)
    }
}

/// Multiplying two frames asks for frames of one shape whose products fit the
/// sample type; the result is what `mul` states.
impl<T: MonoPixel> MulSpecImpl<&FrameData<T>> for &FrameData<T> {
    open spec fn obeys_mul_spec() -> bool {
        false
    }

    open spec fn mul_req(self, other: &FrameData<T>) -> bool {
        &&& self.same_shape(other)
        &&& forall|i: int|
            0 <= i < self.data@.len() ==> #[trigger] self.value_at(i) * other.value_at(i)
                <= T::max_int()
    }

    open spec fn mul_spec(self, other: &FrameData<T>) -> FrameData<T> {
        *self
    }
}

impl<T: MonoPixel> core::ops::Mul<&FrameData<T>> for &FrameData<T> {
    type Output = FrameData<T>;

    /// The product of two frames of one size, pixel by pixel.
    fn mul(self, other: &FrameData<T>) -> (product: FrameData<T>)
        ensures
            product.same_shape(self),
            forall|i: int|
                0 <= i < self.data@.len() ==> #[trigger] product.value_at(i) == self.value_at(i)
                    * other.value_at(i),
    {
        proof {
            assert forall|i: int| 0 <= i < self.data@.len() implies call_requires(
                mul_pixels::<T, T>,
                (#[trigger] self.data@[i], other.data@[i]),
            ) by {
                assert(self.value_at(i) * other.value_at(i) <= T::max_int());
            }
        }
        zip_pixels(self, other, mul_pixels::<T, T>)
    }
}

} // verus!
