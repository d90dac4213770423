//! Rectangular pixel grids, stored row by row, and the operations that the
//! rest of the library builds pages from: filling, copying, pasting and
//! turning gray pixels into colored ones.

use vstd::prelude::*;
use vstd::arithmetic::div_mod::lemma_fundamental_div_mod;
use vstd::arithmetic::div_mod::lemma_fundamental_div_mod_converse;

verus! {

/// A color with red, green and blue channels.
#[derive(Clone, Copy, Debug, PartialEq, Eq, Structural)]
pub struct RgbWrapper {
    pub r: u8,
    pub g: u8,
    pub b: u8,
}

/// The mathematical content of a bitmap: its size and its pixels, row by row
/// from the top, each row from the left.
pub struct Raster<P> {
    pub width: nat,
    pub height: nat,
    pub pixels: Seq<P>,
}

impl<P> Raster<P> {
    /// There is exactly one pixel for each position.
    pub open spec fn wf(self) -> bool {
        self.pixels.len() == self.width * self.height
    }

    /// The pixel in column `x` of row `y`.
    pub open spec fn pixel(self, x: int, y: int) -> P
        recommends
            0 <= x < self.width,
            0 <= y < self.height,
    {
        self.pixels[y * self.width + x]
    }

    /// The column of the pixel stored at `index`.
    pub open spec fn column(self, index: int) -> int {
        index % (self.width as int)
    }

    /// The row of the pixel stored at `index`.
    pub open spec fn row(self, index: int) -> int {
        index / (self.width as int)
    }
}

/// Whether a bitmap of this size can be held and resampled in memory:
/// sixteen bytes for each pixel must fit the address space.
pub open spec fn fits_memory(width: nat, height: nat) -> bool {
    16 * width * height <= isize::MAX
}

/// A raster of the given size with every pixel equal to `fill`.
pub open spec fn spec_filled<P>(width: nat, height: nat, fill: P) -> Raster<P> {
    Raster { width, height, pixels: Seq::new(width * height, |i: int| fill) }
}

/// Whether the pixel stored at `index` of `bottom` is covered when `top` is
/// laid on it with its top-left corner in column `x` of row `y`.
pub open spec fn covered<P>(bottom: Raster<P>, top: Raster<P>, x: nat, y: nat, index: int) -> bool {
    &&& x <= bottom.column(index) < x + top.width
    &&& y <= bottom.row(index) < y + top.height
}

/// `bottom` with `top` laid on it, the top-left corner of `top` in column `x`
/// of row `y`. What falls outside `bottom` is cut off.
pub open spec fn spec_paste<P>(bottom: Raster<P>, top: Raster<P>, x: nat, y: nat) -> Raster<P> {
    Raster {
        width: bottom.width,
        height: bottom.height,
        pixels: Seq::new(
            bottom.pixels.len(),
            |i: int|
                if covered(bottom, top, x, y, i) {
                    top.pixel(bottom.column(i) - x, bottom.row(i) - y)
                } else {
                    bottom.pixels[i]
                },
        ),
    }
}

/// The color that shows a gray level: all three channels equal to it.
pub open spec fn spec_gray(level: u8) -> RgbWrapper {
    RgbWrapper { r: level, g: level, b: level }
}

/// A gray raster as a colored one.
pub open spec fn spec_gray_to_rgb(gray: Raster<u8>) -> Raster<RgbWrapper> {
    Raster {
        width: gray.width,
        height: gray.height,
        pixels: Seq::new(gray.pixels.len(), |i: int| spec_gray(gray.pixels[i])),
    }
}

/// The bytes of a colored raster: red, green and blue of each pixel in turn.
pub open spec fn spec_rgb_bytes(pixels: Seq<RgbWrapper>) -> Seq<u8> {
    Seq::new(
        3 * pixels.len(),
        |i: int|
            if i % 3 == 0 {
                pixels[i / 3].r
            } else if i % 3 == 1 {
                pixels[i / 3].g
            } else {
                pixels[i / 3].b
            },
    )
}

/// Position `(x, y)` of a grid `width` wide is stored at `y * width + x`.
pub proof fn lemma_position_of_index(width: nat, x: nat, y: nat)
    requires
        x < width,
    ensures
        ((y * width + x) as int) / (width as int) == y,
        ((y * width + x) as int) % (width as int) == x,
{
    assert(y * width + x == width * y + x) by (nonlinear_arith);
    lemma_fundamental_div_mod_converse((y * width + x) as int, width as int, y as int, x as int);
}

/// The pixel stored at `index` of a grid lies inside the grid.
pub proof fn lemma_index_in_grid(width: nat, height: nat, index: nat)
    requires
        index < width * height,
    ensures
        width > 0,
        0 <= (index as int) % (width as int) < width,
        0 <= (index as int) / (width as int) < height,
        index == ((index as int) / (width as int)) * width + (index as int) % (width as int),
{
    if width == 0 {
        assert(width * height == 0) by (nonlinear_arith)
            requires
                width == 0,
        ;
    }
    lemma_fundamental_div_mod(index as int, width as int);
    let q = index as int / width as int;
    let r = index as int % width as int;
    assert(q * width == width * q) by (nonlinear_arith);
    assert(0 <= q) by (nonlinear_arith)
        requires
            index == width * q + r,
            r < width,
            index >= 0,
            width > 0,
    ;
    if q >= height {
        assert(width * q >= width * height) by (nonlinear_arith)
            requires
                q >= height,
                width > 0,
        ;
    }
}

/// A position inside a grid is stored inside its pixels.
pub proof fn lemma_grid_index_bound(width: nat, height: nat, x: nat, y: nat)
    requires
        x < width,
        y < height,
    ensures
        y * width + x < width * height,
        y * width <= y * width + x,
{
    assert(y * width + x < width * height) by (nonlinear_arith)
        requires
            x < width,
            y + 1 <= height,
    ;
}

/// The pixels of a grid that fits in memory can be counted in a `usize`.
pub proof fn lemma_fits_memory_count(width: nat, height: nat)
    requires
        fits_memory(width, height),
    ensures
        width * height <= usize::MAX,
        3 * (width * height) <= usize::MAX,
{
    assert(16 * (width * height) == 16 * width * height) by (nonlinear_arith);
}

/// A smaller grid needs no more memory than a larger one.
pub proof fn lemma_fits_memory_smaller(width: nat, height: nat, smaller_width: nat, smaller_height: nat)
    requires
        fits_memory(width, height),
        smaller_width <= width,
        smaller_height <= height,
    ensures
        fits_memory(smaller_width, smaller_height),
{
    assert(16 * smaller_width * smaller_height <= 16 * width * height) by (nonlinear_arith)
        requires
            smaller_width <= width,
            smaller_height <= height,
    ;
}

/// Laying a raster down beyond the right or the lower edge changes nothing.
pub proof fn lemma_paste_outside<P>(bottom: Raster<P>, top: Raster<P>, x: nat, y: nat)
    requires
        bottom.wf(),
        x >= bottom.width || y >= bottom.height,
    ensures
        spec_paste(bottom, top, x, y) == bottom,
{
    assert forall|i: int| 0 <= i < bottom.pixels.len() implies !covered(bottom, top, x, y, i) by {
        lemma_index_in_grid(bottom.width, bottom.height, i as nat);
    }
    assert(spec_paste(bottom, top, x, y).pixels =~= bottom.pixels);
}

/// Whether a bitmap of this size can be held and resampled in memory.
pub fn size_fits_memory(width: u32, height: u32) -> (fits: bool)
    ensures
        fits == fits_memory(width as nat, height as nat),
{
    assert(16 * (width as u128) * (height as u128) <= u128::MAX) by (nonlinear_arith)
        requires
            width <= u32::MAX,
            height <= u32::MAX,
    ;
    let needed: u128 = 16 * (width as u128) * (height as u128);
    needed <= isize::MAX as u128
}

/// A rectangular grid of pixels, stored row by row.
#[derive(Debug)]
pub struct Bitmap<P> {
    width: u32,
    height: u32,
    pixels: Vec<P>,
}

impl<P> View for Bitmap<P> {
    type V = Raster<P>;

    closed spec fn view(&self) -> Raster<P> {
        Raster { width: self.width as nat, height: self.height as nat, pixels: self.pixels@ }
    }
}

impl<P> Bitmap<P> {
    #[verifier::type_invariant]
    spec fn inv(self) -> bool {
        &&& self.pixels@.len() == self.width * self.height
        &&& fits_memory(self.width as nat, self.height as nat)
    }
}

impl<P: Copy> Bitmap<P> {
    /// A bitmap of the given size with every pixel equal to `fill`, or
    /// nothing when that size does not fit in memory.
    pub fn new(width: u32, height: u32, fill: P) -> (bitmap: Option<Self>)
        ensures
            bitmap is Some <==> fits_memory(width as nat, height as nat),
            bitmap is Some ==> bitmap->0@ == spec_filled(width as nat, height as nat, fill),
    {
        if !size_fits_memory(width, height) {
            return None;
        }
        proof {
            lemma_fits_memory_count(width as nat, height as nat);
        }
        let count: usize = width as usize * height as usize;
        let mut pixels: Vec<P> = Vec::new();
        let mut i: usize = 0;
        while i < count
            invariant
                i <= count,
                pixels@.len() == i,
                forall|k: int| 0 <= k < i ==> pixels@[k] == fill,
            decreases count - i,
        {
            pixels.push(fill);
            i += 1;
        }
        let bitmap = Bitmap { width, height, pixels };
        assert(bitmap@.pixels =~= spec_filled(width as nat, height as nat, fill).pixels);
        Some(bitmap)
    }

    /// The bitmap of the given size that holds `pixels`, or nothing when
    /// their number is not `width * height` or the size does not fit in memory.
    pub fn from_pixels(width: u32, height: u32, pixels: Vec<P>) -> (bitmap: Option<Self>)
        ensures
            bitmap is Some <==> pixels@.len() == width * height && fits_memory(
                width as nat,
                height as nat,
            ),
            bitmap is Some ==> bitmap->0@ == (Raster {
                width: width as nat,
                height: height as nat,
                pixels: pixels@,
            }),
    {
        if !size_fits_memory(width, height) {
            return None;
        }
        proof {
            lemma_fits_memory_count(width as nat, height as nat);
        }
        if pixels.len() != width as usize * height as usize {
            return None;
        }
        Some(Bitmap { width, height, pixels })
    }

    pub fn width(&self) -> (width: u32)
        ensures
            width == self@.width,
    {
        self.width
    }

    pub fn height(&self) -> (height: u32)
        ensures
            height == self@.height,
    {
        self.height
    }

    /// The size as `(width, height)`. Every bitmap holds one pixel for each
    /// position and fits in memory.
    pub fn dimensions(&self) -> (size: (u32, u32))
        ensures
            size.0 == self@.width,
            size.1 == self@.height,
            self@.wf(),
            fits_memory(self@.width, self@.height),
    {
        proof {
            use_type_invariant(self);
        }
        (self.width, self.height)
    }

    /// The pixels, row by row.
    pub fn pixels(&self) -> (pixels: &Vec<P>)
        ensures
            pixels@ == self@.pixels,
    {
        &self.pixels
    }

    /// The pixel in column `x` of row `y`.
    pub fn get_pixel(&self, x: u32, y: u32) -> (pixel: P)
        requires
            x < self@.width,
            y < self@.height,
        ensures
            pixel == self@.pixel(x as int, y as int),
    {
        proof {
            use_type_invariant(self);
            lemma_grid_index_bound(self.width as nat, self.height as nat, x as nat, y as nat);
            lemma_fits_memory_count(self.width as nat, self.height as nat);
        }
        self.pixels[y as usize * self.width as usize + x as usize]
    }

    /// Sets the pixel in column `x` of row `y`.
    pub fn put_pixel(&mut self, x: u32, y: u32, pixel: P)
        requires
            x < old(self)@.width,
            y < old(self)@.height,
        ensures
            final(self)@.width == old(self)@.width,
            final(self)@.height == old(self)@.height,
            final(self)@.pixels == old(self)@.pixels.update(y * old(self)@.width + x, pixel),
    {
        proof {
            use_type_invariant(&*self);
            lemma_grid_index_bound(self.width as nat, self.height as nat, x as nat, y as nat);
            lemma_fits_memory_count(self.width as nat, self.height as nat);
        }
        let index: usize = y as usize * self.width as usize + x as usize;
        let mut taken: Bitmap<P> = Bitmap { width: 0, height: 0, pixels: Vec::new() };
        core::mem::swap(self, &mut taken);
        let Bitmap { width, height, mut pixels } = taken;
        pixels.set(index, pixel);
        *self = Bitmap { width, height, pixels };
    }

    /// The number of pixels.
    pub fn count(&self) -> (count: usize)
        ensures
            count == self@.pixels.len(),
            count == self@.width * self@.height,
    {
        proof {
            use_type_invariant(self);
        }
        self.pixels.len()
    }

    /// Sets the pixel stored at `index`, counting row by row.
    pub fn put_at(&mut self, index: usize, pixel: P)
        requires
            index < old(self)@.pixels.len(),
        ensures
            final(self)@.width == old(self)@.width,
            final(self)@.height == old(self)@.height,
            final(self)@.pixels == old(self)@.pixels.update(index as int, pixel),
    {
        proof {
            use_type_invariant(&*self);
        }
        let mut taken: Bitmap<P> = Bitmap { width: 0, height: 0, pixels: Vec::new() };
        core::mem::swap(self, &mut taken);
        let Bitmap { width, height, mut pixels } = taken;
        pixels.set(index, pixel);
        *self = Bitmap { width, height, pixels };
    }

    /// A copy of this bitmap.
    pub fn duplicate(&self) -> (copy: Self)
        ensures
            copy@ == self@,
    {
        proof {
            use_type_invariant(self);
        }
        let count: usize = self.pixels.len();
        let mut pixels: Vec<P> = Vec::new();
        let mut i: usize = 0;
        while i < count
            invariant
                count == self.pixels@.len(),
                i <= count,
                pixels@.len() == i,
                forall|k: int| 0 <= k < i ==> pixels@[k] == self.pixels@[k],
            decreases count - i,
        {
            pixels.push(self.pixels[i]);
            i += 1;
        }
        assert(pixels@ =~= self.pixels@);
        Bitmap { width: self.width, height: self.height, pixels }
    }

    /// Lays `top` on this bitmap with its top-left corner in column `x` of
    /// row `y`. What falls outside this bitmap is cut off.
    pub fn paste(&mut self, top: &Bitmap<P>, x: u32, y: u32)
        ensures
            final(self)@ == spec_paste(old(self)@, top@, x as nat, y as nat),
    {
        proof {
            use_type_invariant(&*self);
            use_type_invariant(top);
        }
        let ghost before = self@;
        let ghost above = top@;
        let mut taken: Bitmap<P> = Bitmap { width: 0, height: 0, pixels: Vec::new() };
        core::mem::swap(self, &mut taken);
        let Bitmap { width, height, mut pixels } = taken;
        if x >= width || y >= height || top.width == 0 || top.height == 0 {
            proof {
                assert forall|i: int| 0 <= i < before.pixels.len() implies !covered(
                    before,
                    above,
                    x as nat,
                    y as nat,
                    i,
                ) by {
                    lemma_index_in_grid(before.width, before.height, i as nat);
                }
                assert(pixels@ =~= spec_paste(before, above, x as nat, y as nat).pixels);
            }
            *self = Bitmap { width, height, pixels };
            return ;
        }
        let columns: u32 = if top.width < width - x {
            top.width
        } else {
            width - x
        };
        let rows: u32 = if top.height < height - y {
            top.height
        } else {
            height - y
        };
        let mut row: u32 = 0;
        while row < rows
            invariant
                row <= rows,
                rows <= top.height,
                columns <= top.width,
                x + columns <= width,
                y + rows <= height,
                rows == if top.height < height - y { top.height } else { (height - y) as u32 },
                columns == if top.width < width - x { top.width } else { (width - x) as u32 },
                pixels@.len() == width * height,
                top.pixels@.len() == top.width * top.height,
                fits_memory(top.width as nat, top.height as nat),
                fits_memory(width as nat, height as nat),
                before.width == width,
                before.height == height,
                before.pixels.len() == width * height,
                above == top@,
                forall|i: int|
                    0 <= i < width * height ==> pixels@[i] == if covered(
                        before,
                        above,
                        x as nat,
                        y as nat,
                        i,
                    ) && before.row(i) < y + row {
                        above.pixel(before.column(i) - x, before.row(i) - y)
                    } else {
                        before.pixels[i]
                    },
            decreases rows - row,
        {
            let mut column: u32 = 0;
            while column < columns
                invariant
                    row < rows,
                    column <= columns,
                    rows <= top.height,
                    columns <= top.width,
                    x + columns <= width,
                    y + rows <= height,
                    columns == if top.width < width - x { top.width } else { (width - x) as u32 },
                    pixels@.len() == width * height,
                    top.pixels@.len() == top.width * top.height,
                    fits_memory(top.width as nat, top.height as nat),
                    fits_memory(width as nat, height as nat),
                    before.width == width,
                    before.height == height,
                    before.pixels.len() == width * height,
                    above == top@,
                    forall|i: int|
                        0 <= i < width * height ==> pixels@[i] == if covered(
                            before,
                            above,
                            x as nat,
                            y as nat,
                            i,
                        ) && (before.row(i) < y + row || (before.row(i) == y + row
                            && before.column(i) < x + column)) {
                            above.pixel(before.column(i) - x, before.row(i) - y)
                        } else {
                            before.pixels[i]
                        },
                decreases columns - column,
            {
                proof {
                    lemma_grid_index_bound(
                        top.width as nat,
                        top.height as nat,
                        column as nat,
                        row as nat,
                    );
                    lemma_grid_index_bound(
                        width as nat,
                        height as nat,
                        (x + column) as nat,
                        (y + row) as nat,
                    );
                    lemma_position_of_index(width as nat, (x + column) as nat, (y + row) as nat);
                    lemma_fits_memory_count(width as nat, height as nat);
                    lemma_fits_memory_count(top.width as nat, top.height as nat);
                }
                let source: usize = row as usize * top.width as usize + column as usize;
                let target: usize = (y + row) as usize * width as usize + (x + column) as usize;
                let ghost earlier = pixels@;
                pixels.set(target, top.pixels[source]);
                proof {
                    assert forall|i: int| 0 <= i < width * height implies pixels@[i]
                        == if covered(before, above, x as nat, y as nat, i) && (before.row(i) < y
                        + row || (before.row(i) == y + row && before.column(i) < x + column + 1)) {
                        above.pixel(before.column(i) - x, before.row(i) - y)
                    } else {
                        before.pixels[i]
                    } by {
                        lemma_index_in_grid(width as nat, height as nat, i as nat);
                        if i == target {
                            assert(before.row(i) == y + row);
                            assert(before.column(i) == x + column);
                        } else {
                            assert(pixels@[i] == earlier[i]);
                            if before.row(i) == y + row && before.column(i) == x + column {
                                assert(false);
                            }
                        }
                    }
                }
                column += 1;
            }
            proof {
                assert forall|i: int| 0 <= i < width * height implies pixels@[i]
                    == if covered(before, above, x as nat, y as nat, i) && before.row(i) < y + row
                    + 1 {
                    above.pixel(before.column(i) - x, before.row(i) - y)
                } else {
                    before.pixels[i]
                } by {
                    lemma_index_in_grid(width as nat, height as nat, i as nat);
                }
            }
            row += 1;
        }
        proof {
            assert forall|i: int| 0 <= i < width * height implies pixels@[i] == spec_paste(
                before,
                above,
                x as nat,
                y as nat,
            ).pixels[i] by {
                lemma_index_in_grid(width as nat, height as nat, i as nat);
            }
            assert(pixels@ =~= spec_paste(before, above, x as nat, y as nat).pixels);
        }
        *self = Bitmap { width, height, pixels };
    }
}

/// The pixels that nearest-neighbor resampling makes of a gray raster of
/// `width` by `height` pixels when it is brought to `new_width` by
/// `new_height`.
pub uninterp spec fn nearest_resized(
    pixels: Seq<u8>,
    width: nat,
    height: nat,
    new_width: nat,
    new_height: nat,
) -> Seq<u8>;

/// A gray raster brought to another size by nearest-neighbor resampling.
pub open spec fn spec_resized(source: Raster<u8>, new_width: nat, new_height: nat) -> Raster<u8> {
    Raster {
        width: new_width,
        height: new_height,
        pixels: nearest_resized(source.pixels, source.width, source.height, new_width, new_height),
    }
}

/// Calls `image::imageops::resize` with `FilterType::Nearest` on a gray
/// image. The contract claims that the outcome is determined by the pixels
/// and the two sizes, and that it holds one pixel for each position of the
/// new size. The sizes asked for keep the buffers that the call allocates,
/// sixteen bytes for each pixel of `width` by `new_height` and of the
/// result, within the address space.
#[verifier::external_body]
fn resize_nearest(pixels: &Vec<u8>, width: u32, height: u32, new_width: u32, new_height: u32) -> (resized: Vec<u8>)
    requires
        pixels@.len() == width * height,
        fits_memory(width as nat, new_height as nat),
        fits_memory(new_width as nat, new_height as nat),
    ensures
        resized@ == nearest_resized(
            pixels@,
            width as nat,
            height as nat,
            new_width as nat,
            new_height as nat,
        ),
        resized@.len() == new_width * new_height,
{
    let source = image::GrayImage::from_raw(width, height, pixels.clone()).unwrap();
    let filter = image::imageops::FilterType::Nearest;
    image::imageops::resize(&source, new_width, new_height, filter).into_raw()
}

impl Bitmap<u8> {
    /// This bitmap brought to `width` by `height` pixels by nearest-neighbor
    /// resampling. The sizes must fit in memory.
    pub fn resized(&self, width: u32, height: u32) -> (resized: Bitmap<u8>)
        requires
            fits_memory(self@.width, height as nat),
            fits_memory(width as nat, height as nat),
        ensures
            resized@ == spec_resized(self@, width as nat, height as nat),
    {
        proof {
            use_type_invariant(self);
        }
        let pixels = resize_nearest(&self.pixels, self.width, self.height, width, height);
        Bitmap { width, height, pixels }
    }

    /// This gray bitmap as a colored one.
    pub fn to_rgb(&self) -> (colored: Bitmap<RgbWrapper>)
        ensures
            colored@ == spec_gray_to_rgb(self@),
    {
        proof {
            use_type_invariant(self);
        }
        let count: usize = self.pixels.len();
        let mut pixels: Vec<RgbWrapper> = Vec::new();
        let mut i: usize = 0;
        while i < count
            invariant
                count == self.pixels@.len(),
                i <= count,
                pixels@.len() == i,
                forall|k: int| 0 <= k < i ==> pixels@[k] == spec_gray(self.pixels@[k]),
            decreases count - i,
        {
            let level: u8 = self.pixels[i];
            pixels.push(RgbWrapper { r: level, g: level, b: level });
            i += 1;
        }
        assert(pixels@ =~= spec_gray_to_rgb(self@).pixels);
        Bitmap { width: self.width, height: self.height, pixels }
    }
}

impl Bitmap<RgbWrapper> {
    /// The bytes of this bitmap: red, green and blue of each pixel in turn.
    pub fn to_bytes(&self) -> (bytes: Vec<u8>)
        ensures
            bytes@ == spec_rgb_bytes(self@.pixels),
    {
        proof {
            use_type_invariant(self);
        }
        let count: usize = self.pixels.len();
        let mut bytes: Vec<u8> = Vec::new();
        let mut i: usize = 0;
        while i < count
            invariant
                count == self.pixels@.len(),
                i <= count,
                bytes@.len() == 3 * i,
                forall|k: int| 0 <= k < 3 * i ==> bytes@[k] == spec_rgb_bytes(self.pixels@)[k],
            decreases count - i,
        {
            let pixel: RgbWrapper = self.pixels[i];
            bytes.push(pixel.r);
            bytes.push(pixel.g);
            bytes.push(pixel.b);
            i += 1;
        }
        assert(bytes@ =~= spec_rgb_bytes(self@.pixels));
        bytes
    }
}

} // verus!
