//! One page as pixels: a white sheet with barcodes laid into the cells of
//! its grid, and its PNG file.

use vstd::prelude::*;
use crate::generator::spec_barcodes;
use crate::generator::BarcodeView;
use crate::generator::GeneratedBarcode;
use crate::grid::spec_cell_x;
use crate::grid::spec_cell_y;
use crate::grid::PageGrid;
use crate::image_editor::spec_add_border;
use crate::image_editor::ImageEditor;
use crate::image_editor::Side;
use crate::raster::fits_memory;
use crate::raster::lemma_fits_memory_smaller;
use crate::raster::lemma_paste_outside;
use crate::raster::spec_filled;
use crate::raster::spec_gray_to_rgb;
use crate::raster::spec_paste;
use crate::raster::spec_resized;
use crate::raster::spec_rgb_bytes;
use crate::raster::Bitmap;
use crate::raster::Raster;
use crate::raster::RgbWrapper;

verus! {

/// Thickness of the cut lines, in pixels.
pub const GRID_BORDER_THICKNESS: u32 = 1;

/// The color of an empty page.
pub open spec fn spec_white() -> RgbWrapper {
    RgbWrapper { r: 255, g: 255, b: 255 }
}

/// The light gray of the cut lines.
pub open spec fn spec_border_color() -> RgbWrapper {
    RgbWrapper { r: 211, g: 211, b: 211 }
}

/// The size to which a barcode of `width` by `height` pixels is brought to
/// fit a cell: its own size when it fits, else the largest size of the same
/// aspect ratio that fits, rounded down. A barcode is never enlarged.
pub open spec fn spec_fit_size(width: nat, height: nat, cell_width: nat, cell_height: nat) -> (nat, nat) {
    if width <= cell_width && height <= cell_height {
        (width, height)
    } else if cell_width * height <= cell_height * width {
        (cell_width, height * cell_width / width)
    } else {
        (width * cell_height / height, cell_height)
    }
}

/// A barcode as it is laid into a cell: itself when it fits, else resampled
/// to the size that fits.
pub open spec fn spec_fitted(barcode: Raster<u8>, cell_width: nat, cell_height: nat) -> Raster<u8> {
    if barcode.width <= cell_width && barcode.height <= cell_height {
        barcode
    } else {
        spec_resized(
            barcode,
            spec_fit_size(barcode.width, barcode.height, cell_width, cell_height).0,
            spec_fit_size(barcode.width, barcode.height, cell_width, cell_height).1,
        )
    }
}

/// The edges of a cell that get a cut line: the bottom and the right edge
/// of every cell, the top edge in the first row, the left edge in the first
/// column.
pub open spec fn spec_cell_sides(row: nat, col: nat) -> Seq<Side> {
    if row == 0 && col == 0 {
        seq![Side::Top, Side::Bottom, Side::Left, Side::Right]
    } else if row == 0 {
        seq![Side::Top, Side::Bottom, Side::Right]
    } else if col == 0 {
        seq![Side::Bottom, Side::Left, Side::Right]
    } else {
        seq![Side::Bottom, Side::Right]
    }
}

/// The picture that stands for a barcode in the cell `slot` of a page,
/// cells counted row by row: the barcode fitted to the cell, in color, with
/// the cut lines of that cell if they are asked for.
pub open spec fn spec_cell_image(barcode: Raster<u8>, grid: PageGrid, slot: nat, grid_borders: bool) -> Raster<RgbWrapper> {
    let colored = spec_gray_to_rgb(
        spec_fitted(barcode, grid.cell_width as nat, grid.cell_height as nat),
    );
    if grid_borders {
        spec_add_border(
            colored,
            GRID_BORDER_THICKNESS as nat,
            spec_border_color(),
            spec_cell_sides(slot / grid.cols as nat, slot % grid.cols as nat),
        )
    } else {
        colored
    }
}

/// A white page with the `count` barcodes from `cursor` on laid into its
/// cells, left to right and top to bottom.
pub open spec fn spec_page(
    barcodes: Seq<BarcodeView>,
    cursor: nat,
    grid: PageGrid,
    grid_borders: bool,
    count: nat,
) -> Raster<RgbWrapper>
    decreases count,
{
    if count == 0 {
        spec_filled(grid.page_width as nat, grid.page_height as nat, spec_white())
    } else {
        let slot = (count - 1) as nat;
        let cell = spec_cell_image(barcodes[(cursor + slot) as int].buffer, grid, slot, grid_borders);
        spec_paste(
            spec_page(barcodes, cursor, grid, grid_borders, slot),
            cell,
            spec_cell_x(grid, slot, cell.width),
            spec_cell_y(grid, slot, cell.height),
        )
    }
}

/// A fitted barcode is no larger than the cell and no larger than it was.
pub proof fn lemma_fit_size_bounds(width: nat, height: nat, cell_width: nat, cell_height: nat)
    requires
        cell_width > 0,
        cell_height > 0,
    ensures
        spec_fit_size(width, height, cell_width, cell_height).0 <= cell_width,
        spec_fit_size(width, height, cell_width, cell_height).1 <= cell_height,
        spec_fit_size(width, height, cell_width, cell_height).0 <= width,
        spec_fit_size(width, height, cell_width, cell_height).1 <= height,
        !(width <= cell_width && height <= cell_height) && cell_width * height <= cell_height
            * width ==> width > 0,
        !(width <= cell_width && height <= cell_height) && cell_width * height > cell_height
            * width ==> height > 0,
{
    if width <= cell_width && height <= cell_height {
    } else if cell_width * height <= cell_height * width {
        assert(width > 0 && cell_width <= width) by (nonlinear_arith)
            requires
                cell_width * height <= cell_height * width,
                !(width <= cell_width && height <= cell_height),
                cell_width > 0,
                cell_height > 0,
        ;
        let scaled = height * cell_width / width;
        assert(scaled <= cell_height && scaled <= height && 0 <= scaled) by (nonlinear_arith)
            requires
                scaled == height * cell_width / width,
                cell_width * height <= cell_height * width,
                cell_width <= width,
                width > 0,
                height >= 0,
                cell_width > 0,
        {
            assert(height * cell_width == cell_width * height);
            assert(scaled * width <= height * cell_width);
            assert(scaled * width <= cell_height * width);
            assert(height * cell_width <= height * width);
            assert(scaled * width <= height * width);
        }
    } else {
        assert(height > 0 && cell_height <= height) by (nonlinear_arith)
            requires
                cell_width * height > cell_height * width,
                !(width <= cell_width && height <= cell_height),
                cell_width > 0,
                cell_height > 0,
        ;
        let scaled = width * cell_height / height;
        assert(scaled <= cell_width && scaled <= width && 0 <= scaled) by (nonlinear_arith)
            requires
                scaled == width * cell_height / height,
                cell_width * height > cell_height * width,
                cell_height <= height,
                height > 0,
                width >= 0,
                cell_height > 0,
        {
            assert(width * cell_height == cell_height * width);
            assert(scaled * height <= width * cell_height);
            assert(scaled * height <= cell_width * height);
            assert(width * cell_height <= width * height);
            assert(scaled * height <= width * height);
        }
    }
}

/// Brings a barcode to the size at which it fits a cell: a copy when it
/// fits, else resampled to the largest size of the same aspect ratio that
/// fits. A barcode is never enlarged.
pub fn fit_to_cell(barcode: &Bitmap<u8>, cell_width: u32, cell_height: u32) -> (fitted: Bitmap<u8>)
    requires
        cell_width > 0,
        cell_height > 0,
    ensures
        fitted@ == spec_fitted(barcode@, cell_width as nat, cell_height as nat),
        fitted@.width <= cell_width,
        fitted@.height <= cell_height,
{
    let (width, height) = barcode.dimensions();
    if width <= cell_width && height <= cell_height {
        return barcode.duplicate();
    }
    proof {
        lemma_fit_size_bounds(width as nat, height as nat, cell_width as nat, cell_height as nat);
    }
    assert(cell_width as u64 * height as u64 <= u64::MAX && cell_height as u64 * width as u64
        <= u64::MAX) by (nonlinear_arith)
        requires
            cell_width <= u32::MAX,
            cell_height <= u32::MAX,
            width <= u32::MAX,
            height <= u32::MAX,
    ;
    let (new_width, new_height) = if cell_width as u64 * height as u64 <= cell_height as u64
        * width as u64 {
        (cell_width, (height as u64 * cell_width as u64 / width as u64) as u32)
    } else {
        ((width as u64 * cell_height as u64 / height as u64) as u32, cell_height)
    };
    proof {
        lemma_fits_memory_smaller(width as nat, height as nat, width as nat, new_height as nat);
        lemma_fits_memory_smaller(width as nat, height as nat, new_width as nat, new_height as nat);
    }
    barcode.resized(new_width, new_height)
}

/// The edges of the cell in the given row and column that get a cut line.
pub fn cell_sides(row: usize, col: usize) -> (sides: Vec<Side>)
    ensures
        sides@ == spec_cell_sides(row as nat, col as nat),
{
    let mut sides: Vec<Side> = Vec::new();
    if row == 0 {
        sides.push(Side::Top);
    }
    sides.push(Side::Bottom);
    if col == 0 {
        sides.push(Side::Left);
    }
    sides.push(Side::Right);
    assert(sides@ =~= spec_cell_sides(row as nat, col as nat));
    sides
}

/// A white page with the `count` barcodes from `cursor` on laid into the
/// cells of `grid`, left to right and top to bottom, each fitted to its
/// cell and centered in it, with cut lines if `grid_borders` is set.
pub fn compose_page(
    barcodes: &[GeneratedBarcode],
    cursor: usize,
    count: usize,
    grid: &PageGrid,
    grid_borders: bool,
) -> (page: Bitmap<RgbWrapper>)
    requires
        cursor + count <= barcodes@.len(),
        grid.cols > 0,
        grid.cell_width > 0,
        grid.cell_height > 0,
        fits_memory(grid.page_width as nat, grid.page_height as nat),
    ensures
        page@ == spec_page(spec_barcodes(barcodes@), cursor as nat, *grid, grid_borders, count as nat),
        page@.width == grid.page_width,
        page@.height == grid.page_height,
{
    let ghost views = spec_barcodes(barcodes@);
    let white = RgbWrapper { r: 255, g: 255, b: 255 };
    let gray = RgbWrapper { r: 211, g: 211, b: 211 };
    let editor = ImageEditor::new();
    let mut page: Bitmap<RgbWrapper> = Bitmap::new(grid.page_width, grid.page_height, white).unwrap();
    let cols: usize = grid.cols as usize;
    let total: usize = barcodes.len();
    let mut slot: usize = 0;
    while slot < count
        invariant
            slot <= count,
            cursor + count <= total,
            total == barcodes@.len(),
            views == spec_barcodes(barcodes@),
            cols == grid.cols,
            grid.cols > 0,
            grid.cell_width > 0,
            grid.cell_height > 0,
            gray == spec_border_color(),
            page@ == spec_page(views, cursor as nat, *grid, grid_borders, slot as nat),
            page@.width == grid.page_width,
            page@.height == grid.page_height,
            page@.wf(),
        decreases count - slot,
    {
        let barcode: &GeneratedBarcode = &barcodes[cursor + slot];
        assert(views[cursor + slot] == barcode@);
        let row: usize = slot / cols;
        let col: usize = slot % cols;
        let fitted: Bitmap<u8> = fit_to_cell(&barcode.buffer, grid.cell_width, grid.cell_height);
        let mut cell: Bitmap<RgbWrapper> = fitted.to_rgb();
        if grid_borders {
            editor.add_border(&mut cell, GRID_BORDER_THICKNESS, gray, cell_sides(row, col));
        }
        assert(cell@ == spec_cell_image(barcode@.buffer, *grid, slot as nat, grid_borders));
        let (cell_width, cell_height) = cell.dimensions();
        let ghost x = spec_cell_x(*grid, slot as nat, cell_width as nat);
        let ghost y = spec_cell_y(*grid, slot as nat, cell_height as nat);
        let ghost before = page@;
        assert(spec_page(views, cursor as nat, *grid, grid_borders, (slot + 1) as nat)
            == spec_paste(before, cell@, x, y));
        if row > u32::MAX as usize {
            proof {
                assert(y >= row) by (nonlinear_arith)
                    requires
                        y == grid.margin_y + row * grid.cell_height + (grid.cell_height
                            - cell_height) / 2,
                        grid.cell_height >= 1,
                        cell_height <= grid.cell_height,
                        row >= 0,
                ;
                lemma_paste_outside(before, cell@, x, y);
            }
        } else {
            assert(col as u64 * (grid.cell_width as u64) + grid.margin_x as u64 + ((
            grid.cell_width - cell_width) / 2) as u64 <= u64::MAX && row as u64 * (
            grid.cell_height as u64) + grid.margin_y as u64 + ((grid.cell_height - cell_height)
                / 2) as u64 <= u64::MAX) by (nonlinear_arith)
                requires
                    0 <= col < u32::MAX,
                    0 <= row <= u32::MAX,
                    grid.cell_width <= u32::MAX,
                    grid.cell_height <= u32::MAX,
                    grid.margin_x <= u32::MAX,
                    grid.margin_y <= u32::MAX,
                    cell_width <= grid.cell_width,
                    cell_height <= grid.cell_height,
            ;
            let left: u64 = grid.margin_x as u64 + col as u64 * (grid.cell_width as u64) + ((
            grid.cell_width - cell_width) / 2) as u64;
            let top: u64 = grid.margin_y as u64 + row as u64 * (grid.cell_height as u64) + ((
            grid.cell_height - cell_height) / 2) as u64;
            assert(left == x && top == y);
            if left > u32::MAX as u64 || top > u32::MAX as u64 {
                proof {
                    lemma_paste_outside(before, cell@, x, y);
                }
            } else {
                page.paste(&cell, left as u32, top as u32);
            }
        }
        slot += 1;
    }
    page
}

/// The error type of the `image` crate.
#[verifier::external_type_specification]
#[verifier::external_body]
pub struct ExImageError(image::ImageError);

/// The PNG file that the encoder of the `image` crate writes for a colored
/// picture of `width` by `height` pixels, given as red, green and blue
/// bytes; nothing when the encoder refuses the picture.
pub uninterp spec fn png_encoded_rgb(bytes: Seq<u8>, width: nat, height: nat) -> Option<Seq<u8>>;

/// Calls `ImageBuffer::write_to` of the `image` crate with
/// `ImageFormat::Png` on a colored picture, into memory. The contract
/// claims that what is written, or that the encoder fails, is determined by
/// the bytes and the size.
#[verifier::external_body]
fn encode_png_rgb(bytes: Vec<u8>, width: u32, height: u32) -> (encoded: Result<Vec<u8>, image::ImageError>)
    requires
        bytes@.len() == 3 * (width * height),
    ensures
        match encoded {
            Ok(png) => png_encoded_rgb(bytes@, width as nat, height as nat) == Some(png@),
            Err(_) => png_encoded_rgb(bytes@, width as nat, height as nat) is None,
        },
{
    let picture = image::RgbImage::from_raw(width, height, bytes).unwrap();
    let mut png: Vec<u8> = Vec::new();
    picture.write_to(&mut std::io::Cursor::new(&mut png), image::ImageFormat::Png)?;
    Ok(png)
}

/// The PNG file of a colored bitmap, or nothing when the encoder refuses
/// it.
pub fn encode_page(page: &Bitmap<RgbWrapper>) -> (encoded: Option<Vec<u8>>)
    ensures
        spec_encoded_page(page@) == match encoded {
            Some(png) => Some(png@),
            None => None,
        },
{
    let (width, height) = page.dimensions();
    let bytes: Vec<u8> = page.to_bytes();
    match encode_png_rgb(bytes, width, height) {
        Ok(png) => Some(png),
        Err(_) => None,
    }
}

/// The PNG file of a colored raster, or nothing when the encoder refuses
/// it.
pub open spec fn spec_encoded_page(page: Raster<RgbWrapper>) -> Option<Seq<u8>> {
    png_encoded_rgb(spec_rgb_bytes(page.pixels), page.width, page.height)
}

} // verus!
