//! Raster editing: resizing to a size, by a percentage or to a physical
//! size, and painting borders along chosen edges.

use vstd::prelude::*;
use crate::calculator::round_div;
use crate::calculator::rounded_quotient;
use crate::calculator::saturate_u32;
use crate::calculator::spec_mm_to_px;
use crate::calculator::DimensionCalculator;
use crate::raster::fits_memory;
use crate::raster::lemma_index_in_grid;
use crate::raster::spec_resized;
use crate::raster::Bitmap;
use crate::raster::Raster;

verus! {

/// Resolution at which a physical size is turned into pixels when none is
/// given.
pub const DEFAULT_DPI: u32 = 300;

/// An edge of a bitmap.
#[derive(Clone, Copy, Debug, PartialEq, Eq, Structural)]
pub enum Side {
    Left,
    Right,
    Top,
    Bottom,
}

/// `dimension` scaled to `percentage` percent, rounded half away from zero
/// and capped at the largest `u32`.
pub open spec fn spec_scaled(dimension: nat, percentage: nat) -> nat {
    saturate_u32(round_div(dimension * percentage, 100))
}

/// A gray raster with its height scaled to `percentage` percent; at 100
/// percent it is the raster itself.
pub open spec fn spec_resize_height_percentage(source: Raster<u8>, percentage: nat) -> Raster<u8> {
    if percentage == 100 {
        source
    } else {
        spec_resized(source, source.width, spec_scaled(source.height, percentage))
    }
}

/// A gray raster with its width scaled to `percentage` percent; at 100
/// percent it is the raster itself.
pub open spec fn spec_resize_width_percentage(source: Raster<u8>, percentage: nat) -> Raster<u8> {
    if percentage == 100 {
        source
    } else {
        spec_resized(source, spec_scaled(source.width, percentage), source.height)
    }
}

/// Scaling a side to 100 percent gives the raster itself, pixel for pixel.
pub proof fn lemma_full_percentage_is_identity(source: Raster<u8>)
    ensures
        spec_resize_height_percentage(source, 100) == source,
        spec_resize_width_percentage(source, 100) == source,
{
}

/// Whether the pixel stored at `index` lies within `thickness` pixels of one
/// of the edges in `sides`.
pub open spec fn on_border<P>(raster: Raster<P>, thickness: nat, sides: Seq<Side>, index: int) -> bool {
    ||| sides.contains(Side::Left) && raster.column(index) < thickness
    ||| sides.contains(Side::Right) && raster.column(index) + thickness >= raster.width
    ||| sides.contains(Side::Top) && raster.row(index) < thickness
    ||| sides.contains(Side::Bottom) && raster.row(index) + thickness >= raster.height
}

/// A raster with `thickness` rows or columns of `color` painted over each of
/// the edges in `sides`. The size stays; what lay under the border is lost.
pub open spec fn spec_add_border<P>(raster: Raster<P>, thickness: nat, color: P, sides: Seq<Side>) -> Raster<P> {
    Raster {
        width: raster.width,
        height: raster.height,
        pixels: Seq::new(
            raster.pixels.len(),
            |i: int|
                if on_border(raster, thickness, sides, i) {
                    color
                } else {
                    raster.pixels[i]
                },
        ),
    }
}

/// Painting a border a second time changes nothing.
pub proof fn lemma_add_border_idempotent<P>(raster: Raster<P>, thickness: nat, color: P, sides: Seq<Side>)
    ensures
        spec_add_border(spec_add_border(raster, thickness, color, sides), thickness, color, sides)
            == spec_add_border(raster, thickness, color, sides),
{
    let once = spec_add_border(raster, thickness, color, sides);
    let twice = spec_add_border(once, thickness, color, sides);
    assert forall|i: int| 0 <= i < once.pixels.len() implies twice.pixels[i] == once.pixels[i] by {
        assert(on_border(once, thickness, sides, i) == on_border(raster, thickness, sides, i));
    }
    assert(twice.pixels =~= once.pixels);
}

/// A border leaves the size of the raster as it was.
pub proof fn lemma_add_border_keeps_size<P>(raster: Raster<P>, thickness: nat, color: P, sides: Seq<Side>)
    requires
        raster.wf(),
    ensures
        spec_add_border(raster, thickness, color, sides).wf(),
        spec_add_border(raster, thickness, color, sides).width == raster.width,
        spec_add_border(raster, thickness, color, sides).height == raster.height,
{
}

/// Whether `side` is among `sides`.
pub fn has_side(sides: &Vec<Side>, side: Side) -> (found: bool)
    ensures
        found == sides@.contains(side),
{
    let mut i: usize = 0;
    while i < sides.len()
        invariant
            i <= sides.len(),
            forall|k: int| 0 <= k < i ==> sides@[k] != side,
        decreases sides.len() - i,
    {
        if sides[i] == side {
            return true;
        }
        i += 1;
    }
    false
}

/// `dimension` scaled to `percentage` percent.
pub fn scaled(dimension: u32, percentage: u32) -> (scaled: u32)
    ensures
        scaled == spec_scaled(dimension as nat, percentage as nat),
{
    assert(dimension as u64 * percentage as u64 <= u64::MAX) by (nonlinear_arith)
        requires
            dimension <= u32::MAX,
            percentage <= u32::MAX,
    ;
    let rounded: u64 = rounded_quotient(dimension as u64 * percentage as u64, 100);
    if rounded > u32::MAX as u64 {
        u32::MAX
    } else {
        rounded as u32
    }
}

/// Stateless raster editor.
pub struct ImageEditor {}

impl ImageEditor {
    pub fn new() -> (editor: Self) {
        Self {  }
    }

    /// Brings a gray bitmap to `width` by `height` pixels by
    /// nearest-neighbor resampling. The sizes must fit in memory.
    pub fn resize_dimensions(&self, image: &Bitmap<u8>, width: u32, height: u32) -> (resized: Bitmap<u8>)
        requires
            fits_memory(image@.width, height as nat),
            fits_memory(width as nat, height as nat),
        ensures
            resized@ == spec_resized(image@, width as nat, height as nat),
    {
        image.resized(width, height)
    }

    /// Scales the height of a gray bitmap to `percentage` percent. At 100
    /// percent the bitmap is copied and not resampled.
    pub fn resize_height_percentage(&self, image: &Bitmap<u8>, percentage: u32) -> (resized: Bitmap<u8>)
        requires
            percentage != 100 ==> fits_memory(
                image@.width,
                spec_scaled(image@.height, percentage as nat),
            ),
        ensures
            resized@ == spec_resize_height_percentage(image@, percentage as nat),
    {
        if percentage == 100 {
            image.duplicate()
        } else {
            let (width, height) = image.dimensions();
            image.resized(width, scaled(height, percentage))
        }
    }

    /// Scales the width of a gray bitmap to `percentage` percent. At 100
    /// percent the bitmap is copied and not resampled.
    pub fn resize_width_percentage(&self, image: &Bitmap<u8>, percentage: u32) -> (resized: Bitmap<u8>)
        requires
            percentage != 100 ==> fits_memory(
                spec_scaled(image@.width, percentage as nat),
                image@.height,
            ),
        ensures
            resized@ == spec_resize_width_percentage(image@, percentage as nat),
    {
        if percentage == 100 {
            image.duplicate()
        } else {
            let (width, height) = image.dimensions();
            image.resized(scaled(width, percentage), height)
        }
    }

    /// Paints `thickness` rows or columns of `color` over each of the edges
    /// in `sides`, in place. The size stays; what lay under the border is
    /// lost.
    pub fn add_border<P: Copy>(&self, image: &mut Bitmap<P>, thickness: u32, color: P, sides: Vec<Side>)
        ensures
            final(image)@ == spec_add_border(old(image)@, thickness as nat, color, sides@),
    {
        let ghost before = image@;
        let (width, height) = image.dimensions();
        let count: usize = image.count();
        let left: bool = has_side(&sides, Side::Left);
        let right: bool = has_side(&sides, Side::Right);
        let top: bool = has_side(&sides, Side::Top);
        let bottom: bool = has_side(&sides, Side::Bottom);
        let mut index: usize = 0;
        while index < count
            invariant
                index <= count,
                count == width * height,
                before.width == width,
                before.height == height,
                before.pixels.len() == count,
                image@.width == width,
                image@.height == height,
                image@.pixels.len() == count,
                left == sides@.contains(Side::Left),
                right == sides@.contains(Side::Right),
                top == sides@.contains(Side::Top),
                bottom == sides@.contains(Side::Bottom),
                forall|i: int|
                    0 <= i < index ==> image@.pixels[i] == spec_add_border(
                        before,
                        thickness as nat,
                        color,
                        sides@,
                    ).pixels[i],
                forall|i: int| index <= i < count ==> image@.pixels[i] == before.pixels[i],
            decreases count - index,
        {
            proof {
                lemma_index_in_grid(width as nat, height as nat, index as nat);
            }
            let x: u64 = (index % (width as usize)) as u64;
            let y: u64 = (index / (width as usize)) as u64;
            let reach: u64 = thickness as u64;
            let paint: bool = (left && x < reach) || (right && x + reach >= width as u64) || (top
                && y < reach) || (bottom && y + reach >= height as u64);
            assert(paint == on_border(before, thickness as nat, sides@, index as int));
            if paint {
                image.put_at(index, color);
            }
            index += 1;
        }
        assert(image@.pixels =~= spec_add_border(before, thickness as nat, color, sides@).pixels);
    }

    /// Brings a gray bitmap to a physical size, given in micrometers, at 300
    /// dots per inch.
    pub fn resize_to_dimensions_mm(
        &self,
        width_micrometers: u32,
        height_micrometers: u32,
        image: &Bitmap<u8>,
    ) -> (resized: Bitmap<u8>)
        requires
            fits_memory(image@.width, spec_mm_to_px(height_micrometers as nat, DEFAULT_DPI as nat)),
            fits_memory(
                spec_mm_to_px(width_micrometers as nat, DEFAULT_DPI as nat),
                spec_mm_to_px(height_micrometers as nat, DEFAULT_DPI as nat),
            ),
        ensures
            resized@ == spec_resized(
                image@,
                spec_mm_to_px(width_micrometers as nat, DEFAULT_DPI as nat),
                spec_mm_to_px(height_micrometers as nat, DEFAULT_DPI as nat),
            ),
    {
        let calculator = DimensionCalculator::new();
        let width: u32 = calculator.mm_to_px(width_micrometers, DEFAULT_DPI);
        let height: u32 = calculator.mm_to_px(height_micrometers, DEFAULT_DPI);
        image.resized(width, height)
    }
}

} // verus!
