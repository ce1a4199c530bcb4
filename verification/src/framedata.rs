//! A frame's pixel buffer: a row-major grid of pixels.

use crate::pixel::Pixel;
use vstd::prelude::*;

verus! {

/// A rectangle of pixels, stored row by row.
#[derive(Debug)]
pub struct FrameData<T: Pixel> {
    /// The number of columns.
    pub width: u32,
    /// The number of rows.
    pub height: u32,
    /// The pixels, row after row.
    pub data: Vec<T>,
}

/// A region of interest: a rectangle inside a frame, given by its top-left
/// corner and its size.
#[derive(Clone, Copy, Debug, PartialEq, Eq, Structural)]
pub struct ROI {
    x: usize,
    y: usize,
    width: usize,
    height: usize,
}

impl ROI {
    /// The column and the row of the top-left corner, then the numbers of
    /// columns and rows.
    pub closed spec fn bounds(&self) -> (usize, usize, usize, usize) {
        (self.x, self.y, self.width, self.height)
    }

    /// The rectangle of `width` by `height` pixels whose top-left corner is at
    /// column `x`, row `y`.
    pub fn new(x: usize, y: usize, width: usize, height: usize) -> (roi: ROI)
        ensures
            roi.bounds() == (x, y, width, height),
    {
        ROI { x, y, width, height }
    }
}

/// The place of column `x`, row `y` in a row-major buffer of `width` columns.
pub open spec fn cell_index(width: int, x: int, y: int) -> int {
    y * width + x
}

/// A cell inside a grid lies before the end of its buffer, and before every
/// cell of a later row.
pub proof fn lemma_cell_index_bounds(width: int, height: int, x: int, y: int)
    requires
        0 <= x < width,
        0 <= y < height,
    ensures
        0 <= cell_index(width, x, y) < width * height,
        cell_index(width, x, y) < (y + 1) * width,
        y * width <= cell_index(width, x, y),
{
    assert(0 <= y * width) by (nonlinear_arith)
        requires
            0 <= y,
            0 <= width,
    ;
    assert((y + 1) * width <= height * width) by (nonlinear_arith)
        requires
            y + 1 <= height,
            0 <= width,
    ;
    assert((y + 1) * width == y * width + width) by (nonlinear_arith);
    assert(height * width == width * height) by (nonlinear_arith);
}

impl<T: Pixel> FrameData<T> {
    /// The buffer holds exactly one pixel for each cell of the grid.
    pub open spec fn wf(&self) -> bool {
        self.data@.len() == self.width * self.height
    }

    /// The pixel at column `x`, row `y`.
    pub open spec fn pixel(&self, x: int, y: int) -> T {
        self.data@[cell_index(self.width as int, x, y)]
    }

    /// Whether the buffer holds exactly one pixel for each cell of the grid.
    pub fn is_wf(&self) -> (ok: bool)
        ensures
            ok == self.wf(),
    {
        assert(self.width * self.height <= 0xffff_ffff * 0xffff_ffff) by (nonlinear_arith)
            requires
                0 <= self.width <= 0xffff_ffff,
                0 <= self.height <= 0xffff_ffff,
        ;
        self.data.len() as u128 == self.width as u128 * self.height as u128
    }

    /// The place in the buffer of the pixel at column `x`, row `y`.
    #[inline]
    pub fn index(&self, x: u32, y: u32) -> (i: usize)
        requires
            self.wf(),
            x < self.width,
            y < self.height,
        ensures
            i == cell_index(self.width as int, x as int, y as int),
            i < self.data@.len(),
    {
        proof {
            lemma_cell_index_bounds(self.width as int, self.height as int, x as int, y as int);
            assert(self.data.len() == self.data@.len());
            assert(y * self.width <= cell_index(self.width as int, x as int, y as int));
        }
        y as usize * self.width as usize + x as usize
    }

    /// The pixel at column `x`, row `y`.
    #[inline]
    pub fn at(&self, x: u32, y: u32) -> (p: T)
        requires
            self.wf(),
            x < self.width,
            y < self.height,
        ensures
            p == self.pixel(x as int, y as int),
    {
        self.data[self.index(x, y)]
    }

    /// A reference to the pixel at column `x`, row `y`.
    #[inline]
    pub fn at_ref(&self, x: u32, y: u32) -> (p: &T)
        requires
            self.wf(),
            x < self.width,
            y < self.height,
        ensures
            *p == self.pixel(x as int, y as int),
    {
        &self.data[self.index(x, y)]
    }

    /// A copy of the rectangle whose top-left corner is
    /// (`top_left_x`, `top_left_y`), inclusive, and whose bottom-right corner is
    /// (`bottom_right_x`, `bottom_right_y`), exclusive.
    pub fn subregion(
        &self,
        top_left_x: u32,
        top_left_y: u32,
        bottom_right_x: u32,
        bottom_right_y: u32,
    ) -> (sub: Self)
        requires
            self.wf(),
            top_left_x < bottom_right_x <= self.width,
            top_left_y < bottom_right_y <= self.height,
        ensures
            sub.wf(),
            sub.width == bottom_right_x - top_left_x,
            sub.height == bottom_right_y - top_left_y,
            forall|x: int, y: int|
                0 <= x < sub.width && 0 <= y < sub.height ==> #[trigger] sub.pixel(x, y)
                    == self.pixel(top_left_x + x, top_left_y + y),
    {
        let width: u32 = bottom_right_x - top_left_x;
        let height: u32 = bottom_right_y - top_left_y;
        let mut data: Vec<T> = Vec::new();
        let mut y: u32 = top_left_y;
        while y < bottom_right_y
            invariant
                self.wf(),
                top_left_x < bottom_right_x <= self.width,
                top_left_y <= y <= bottom_right_y <= self.height,
                width == bottom_right_x - top_left_x,
                data@.len() == (y - top_left_y) * width,
                forall|i: int, j: int|
                    0 <= i < width && 0 <= j < y - top_left_y ==> #[trigger] data@[cell_index(
                        width as int,
                        i,
                        j,
                    )] == self.pixel(top_left_x + i, top_left_y + j),
            decreases bottom_right_y - y,
        {
            let ghost row = y - top_left_y;
            let mut x: u32 = top_left_x;
            while x < bottom_right_x
                invariant
                    self.wf(),
                    top_left_x <= x <= bottom_right_x <= self.width,
                    top_left_y <= y < bottom_right_y <= self.height,
                    width == bottom_right_x - top_left_x,
                    row == y - top_left_y,
                    data@.len() == row * width + (x - top_left_x),
                    forall|i: int, j: int|
                        0 <= i < width && 0 <= j < row ==> #[trigger] data@[cell_index(
                            width as int,
                            i,
                            j,
                        )] == self.pixel(top_left_x + i, top_left_y + j),
                    forall|i: int|
                        0 <= i < x - top_left_x ==> #[trigger] data@[cell_index(
                            width as int,
                            i,
                            row,
                        )] == self.pixel(top_left_x + i, top_left_y + row),
                decreases bottom_right_x - x,
            {
                let p = self.at(x, y);
                proof {
                    assert forall|i: int, j: int| 0 <= i < width && 0 <= j < row implies cell_index(
                        width as int,
                        i,
                        j,
                    ) < data@.len() by {
                        lemma_cell_index_bounds(width as int, row, i, j);
                        assert((j + 1) * width <= row * width) by (nonlinear_arith)
                            requires
                                j + 1 <= row,
                                0 <= width,
                        ;
                    }
                }
                data.push(p);
                x = x + 1;
            }
            proof {
                assert((row + 1) * width == row * width + width) by (nonlinear_arith);
            }
            y = y + 1;
        }
        let sub = FrameData { width, height, data };
        proof {
            assert(height * width == width * height) by (nonlinear_arith);
        }
        sub
    }
}

impl<T: Pixel> FrameData<T> {
    /// Whether a region has pixels and lies inside the frame.
    pub open spec fn holds(&self, roi: &ROI) -> bool {
        let (x, y, width, height) = roi.bounds();
        &&& 0 < width
        &&& 0 < height
        &&& x + width <= self.width
        &&& y + height <= self.height
    }

    /// A copy of a region of interest, or `None` where the region is empty or
    /// reaches beyond the frame.
    pub fn region(&self, roi: &ROI) -> (sub: Option<Self>)
        requires
            self.wf(),
        ensures
            sub is Some <==> self.holds(roi),
            sub matches Some(sub) ==> {
                let (left, top, width, height) = roi.bounds();
                &&& sub.wf()
                &&& sub.width == width
                &&& sub.height == height
                &&& forall|x: int, y: int|
                    0 <= x < width && 0 <= y < height ==> #[trigger] sub.pixel(x, y) == self.pixel(
                        left + x,
                        top + y,
                    )
            },
    {
        let inside = roi.width > 0 && roi.height > 0 && roi.x <= self.width as usize && roi.width
            <= self.width as usize - roi.x && roi.y <= self.height as usize && roi.height
            <= self.height as usize - roi.y;
        if inside {
            Some(
                self.subregion(
                    roi.x as u32,
                    roi.y as u32,
                    (roi.x + roi.width) as u32,
                    (roi.y + roi.height) as u32,
                ),
            )
        } else {
            None
        }
    }
}

impl<T: Pixel> Clone for FrameData<T> {
    /// A frame of the same size with the same pixels.
    fn clone(&self) -> (copy: Self)
        ensures
            copy.width == self.width,
            copy.height == self.height,
            copy.data@ == self.data@,
    {
        let n: usize = self.data.len();
        let mut data: Vec<T> = Vec::new();
        let mut i: usize = 0;
        while i < n
            invariant
                i <= n,
                n == self.data@.len(),
                data@ == self.data@.take(i as int),
            decreases n - i,
        {
            data.push(self.data[i]);
            assert(data@ =~= self.data@.take(i + 1));
            i = i + 1;
        }
        assert(self.data@.take(n as int) =~= self.data@);
        FrameData { width: self.width, height: self.height, data }
    }
}

} // verus!
