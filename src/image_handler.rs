//! A row-major grid of pixels, generic over the pixel value.

use vstd::prelude::*;

verus! {

/// A `width` x `height` grid of pixels stored row by row, with the flag that
/// tells the encoder whether to apply gamma correction.
pub struct Image<P> {
    width: u32,
    height: u32,
    pixels: Vec<P>,
    to_srgb: bool,
}

/// Position in row-major storage of the pixel in column `x` of row `y`.
pub open spec fn index_of(width: nat, x: nat, y: nat) -> nat {
    y * width + x
}

impl<P: Copy> Image<P> {
    /// Number of columns.
    pub closed spec fn spec_width(&self) -> nat {
        self.width as nat
    }

    /// Number of rows.
    pub closed spec fn spec_height(&self) -> nat {
        self.height as nat
    }

    /// Whether the encoder applies gamma correction.
    pub closed spec fn spec_to_srgb(&self) -> bool {
        self.to_srgb
    }

    /// The pixels in row-major order.
    pub closed spec fn pixels_view(&self) -> Seq<P> {
        self.pixels@
    }

    /// One pixel per cell, and every cell index fits the `u32` arithmetic.
    pub closed spec fn well_formed(&self) -> bool {
        &&& self.pixels@.len() == self.width * self.height
        &&& self.width * self.height <= u32::MAX
    }

    /// The pixel in column `x` of row `y`.
    pub open spec fn pixel_at(&self, x: nat, y: nat) -> P {
        self.pixels_view()[index_of(self.spec_width(), x, y) as int]
    }

    /// Whether `(x, y)` names a cell of the grid.
    pub open spec fn in_bounds(&self, x: nat, y: nat) -> bool {
        x < self.spec_width() && y < self.spec_height()
    }

    /// Creates a grid with every pixel set to `fill`.
    pub fn new(width: u32, height: u32, fill: P, to_srgb: bool) -> (r: Self)
        requires
            width * height <= u32::MAX,
        ensures
            r.well_formed(),
            r.spec_width() == width,
            r.spec_height() == height,
            r.spec_to_srgb() == to_srgb,
            r.pixels_view().len() == width * height,
            forall|k: int| 0 <= k < r.pixels_view().len() ==> r.pixels_view()[k] == fill,
    {
        let n: usize = (width * height) as usize;
        let mut pixels: Vec<P> = Vec::with_capacity(n);
        let mut k: usize = 0;
        while k < n
            invariant
                k <= n,
                pixels@.len() == k,
                forall|i: int| 0 <= i < k ==> pixels@[i] == fill,
            decreases n - k,
        {
            pixels.push(fill);
            k = k + 1;
        }
        Image { width, height, pixels, to_srgb }
    }

    /// Row-major index of the pixel in column `x` of row `y`.
    fn pixel_index(&self, x: u32, y: u32) -> (r: usize)
        requires
            self.well_formed(),
            self.in_bounds(x as nat, y as nat),
        ensures
            r == index_of(self.spec_width(), x as nat, y as nat),
            r < self.pixels_view().len(),
    {
        proof {
            lemma_index_in_grid(self.width as nat, self.height as nat, x as nat, y as nat);
        }
        (y * self.width + x) as usize
    }

    /// Whether `(x, y)` names a cell of the grid.
    pub fn validate_coordinates(&self, x: u32, y: u32) -> (r: bool)
        ensures
            r == self.in_bounds(x as nat, y as nat),
    {
        x < self.width && y < self.height
    }

    /// The pixel in column `x` of row `y`.
    pub fn get_pixel(&self, x: u32, y: u32) -> (r: P)
        requires
            self.well_formed(),
            self.in_bounds(x as nat, y as nat),
        ensures
            r == self.pixel_at(x as nat, y as nat),
    {
        let i = self.pixel_index(x, y);
        self.pixels[i]
    }

    /// Replaces the pixel in column `x` of row `y` with `color` and leaves every
    /// other pixel as it was.
    pub fn set_pixel(&mut self, x: u32, y: u32, color: P)
        requires
            old(self).well_formed(),
            old(self).in_bounds(x as nat, y as nat),
        ensures
            final(self).well_formed(),
            final(self).spec_width() == old(self).spec_width(),
            final(self).spec_height() == old(self).spec_height(),
            final(self).spec_to_srgb() == old(self).spec_to_srgb(),
            final(self).pixels_view() == old(self).pixels_view().update(
                index_of(old(self).spec_width(), x as nat, y as nat) as int,
                color,
            ),
    {
        let i = self.pixel_index(x, y);
        self.pixels.set(i, color);
    }

    /// Coordinates `(x, y)` of every pixel, in storage order: row by row from the
    /// top, left to right within a row.
    pub fn enumerate_pixels(&self) -> (r: Vec<(u32, u32)>)
        requires
            self.well_formed(),
        ensures
            r@.len() == self.pixels_view().len(),
            forall|k: int|
                #![trigger r@[k]]
                0 <= k < r@.len() ==> {
                    &&& r@[k].0 as int == k % (self.spec_width() as int)
                    &&& r@[k].1 as int == k / (self.spec_width() as int)
                    &&& self.in_bounds(r@[k].0 as nat, r@[k].1 as nat)
                    &&& index_of(self.spec_width(), r@[k].0 as nat, r@[k].1 as nat) == k
                },
    {
        let mut out: Vec<(u32, u32)> = Vec::new();
        let mut y: u32 = 0;
        while y < self.height
            invariant
                self.well_formed(),
                y <= self.height,
                out@.len() == y * self.width,
                forall|k: int|
                    #![trigger out@[k]]
                    0 <= k < out@.len() ==> {
                        &&& out@[k].0 as int == k % (self.width as int)
                        &&& out@[k].1 as int == k / (self.width as int)
                        &&& out@[k].0 < self.width
                        &&& out@[k].1 < self.height
                    },
            decreases self.height - y,
        {
            let mut x: u32 = 0;
            while x < self.width
                invariant
                    self.well_formed(),
                    y < self.height,
                    x <= self.width,
                    out@.len() == y * self.width + x,
                    forall|k: int|
                        #![trigger out@[k]]
                        0 <= k < out@.len() ==> {
                            &&& out@[k].0 as int == k % (self.width as int)
                            &&& out@[k].1 as int == k / (self.width as int)
                            &&& out@[k].0 < self.width
                            &&& out@[k].1 < self.height
                        },
                decreases self.width - x,
            {
                proof {
                    lemma_row_major_split(self.width as int, x as int, y as int);
                }
                out.push((x, y));
                x = x + 1;
            }
            proof {
                assert(y * self.width + self.width == (y + 1) * self.width) by (nonlinear_arith);
            }
            y = y + 1;
        }
        proof {
            assert(self.height * self.width == self.width * self.height) by (nonlinear_arith);
            assert forall|k: int| #![trigger out@[k]] 0 <= k < out@.len() implies
                index_of(self.width as nat, out@[k].0 as nat, out@[k].1 as nat) == k by {
                lemma_row_major_split_inverse(self.width as int, k);
            }
        }
        out
    }

    /// Number of columns.
    pub fn width(&self) -> (r: u32)
        ensures
            r == self.spec_width(),
    {
        self.width
    }

    /// Number of rows.
    pub fn height(&self) -> (r: u32)
        ensures
            r == self.spec_height(),
    {
        self.height
    }

    /// Whether the encoder applies gamma correction.
    pub fn to_srgb(&self) -> (r: bool)
        ensures
            r == self.spec_to_srgb(),
    {
        self.to_srgb
    }
}

impl Image<[u8; 3]> {
    /// The 8-bit RGB raster of the grid: three bytes per pixel, red, green and
    /// blue, pixels in row-major order.
    pub fn to_rgb8_buffer(&self) -> (r: Vec<u8>)
        requires
            self.well_formed(),
        ensures
            r@.len() == 3 * self.pixels_view().len(),
            forall|k: int, c: int|
                0 <= k < self.pixels_view().len() && 0 <= c < 3 ==> #[trigger] r@[3 * k + c]
                    == self.pixels_view()[k]@[c],
    {
        let mut out: Vec<u8> = Vec::new();
        let n = self.pixels.len();
        let mut k: usize = 0;
        while k < n
            invariant
                n == self.pixels@.len(),
                n <= u32::MAX,
                k <= n,
                out@.len() == 3 * k,
                forall|j: int, c: int|
                    0 <= j < k && 0 <= c < 3 ==> #[trigger] out@[3 * j + c] == self.pixels@[j]@[c],
            decreases n - k,
        {
            let p = self.pixels[k];
            out.push(p[0]);
            out.push(p[1]);
            out.push(p[2]);
            k = k + 1;
        }
        out
    }
}

/// A cell inside a `width` x `height` grid has a row-major index below the
/// number of cells.
pub proof fn lemma_index_in_grid(width: nat, height: nat, x: nat, y: nat)
    requires
        x < width,
        y < height,
    ensures
        index_of(width, x, y) < width * height,
{
    assert(y * width + x < width * height) by (nonlinear_arith)
        requires
            x < width,
            y < height,
    ;
}

/// Column `x` of row `y` sits at index `y * width + x`, whose remainder and
/// quotient by `width` give back `x` and `y`.
pub proof fn lemma_row_major_split(width: int, x: int, y: int)
    requires
        0 <= x < width,
        0 <= y,
    ensures
        (y * width + x) % width == x,
        (y * width + x) / width == y,
{
    vstd::arithmetic::div_mod::lemma_fundamental_div_mod_converse(y * width + x, width, y, x);
}

/// An index splits into a row and a column that give the index back.
pub proof fn lemma_row_major_split_inverse(width: int, k: int)
    requires
        0 < width,
        0 <= k,
    ensures
        (k / width) * width + k % width == k,
{
    vstd::arithmetic::div_mod::lemma_fundamental_div_mod(k, width);
    assert((k / width) * width == width * (k / width)) by (nonlinear_arith);
}

} // verus!
