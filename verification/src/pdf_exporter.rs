//! The single-sheet export: every barcode of a batch on one page, written
//! as a PNG file.

use vstd::prelude::*;
use crate::generator::spec_barcodes;
use crate::generator::BarcodeView;
use crate::generator::GeneratedBarcode;
use crate::paper::get_paper_dimensions_px;
use crate::paper::Paper;
use crate::grid::auto_margin;
use crate::grid::plan_grid;
use crate::grid::spec_auto_margin;
use crate::page::compose_page;
use crate::page::encode_page;
use crate::page::spec_encoded_page;
use crate::page::spec_page;
use crate::png_exporter::spec_batch_grid;
use crate::png_exporter::LayoutError;
use crate::raster::Raster;
use crate::raster::RgbWrapper;

verus! {

/// What a single-sheet export asks for: cut lines or none, margins that
/// follow from the leftover space or fixed ones, and the paper.
#[derive(Clone, Copy, Debug, PartialEq, Eq, Structural)]
pub struct PdfExportConfig {
    pub use_grid: bool,
    pub auto_margin: bool,
    pub paper: Paper,
}

/// Why no sheet can be laid out, if that is so.
pub open spec fn spec_sheet_error(barcodes: Seq<BarcodeView>) -> Option<LayoutError> {
    if barcodes.len() == 0 {
        Some(LayoutError::EmptyBatch)
    } else if barcodes[0].buffer.width == 0 || barcodes[0].buffer.height == 0 {
        Some(LayoutError::EmptyBarcode)
    } else {
        None
    }
}

/// The sheet that holds every barcode of a batch, as pixels. Rows that the
/// page has no room for are cut off.
pub open spec fn spec_sheet(barcodes: Seq<BarcodeView>, config: PdfExportConfig) -> Raster<RgbWrapper> {
    spec_page(
        barcodes,
        0,
        spec_batch_grid(barcodes, config.paper, config.auto_margin),
        config.use_grid,
        barcodes.len(),
    )
}

/// What a single-sheet export gives: the PNG file of the sheet, or why
/// there is none.
pub open spec fn spec_sheet_file(barcodes: Seq<BarcodeView>, config: PdfExportConfig) -> Result<
    Seq<u8>,
    LayoutError,
> {
    match spec_sheet_error(barcodes) {
        Some(error) => Err(error),
        None => match spec_encoded_page(spec_sheet(barcodes, config)) {
            None => Err(LayoutError::Encoding),
            Some(file) => Ok(file),
        },
    }
}

/// Lays a whole batch out on one sheet.
#[derive(Debug)]
pub struct PdfExporter {
    pub config: PdfExportConfig,
}

impl PdfExporter {
    pub fn new(config: PdfExportConfig) -> (exporter: Self)
        ensures
            exporter.config == config,
    {
        Self { config }
    }

    /// The sheet of a batch as a PNG file.
    pub fn create_pdf(&self, barcodes: Vec<GeneratedBarcode>) -> (file: Result<Vec<u8>, LayoutError>)
        ensures
            match file {
                Ok(bytes) => spec_sheet_file(spec_barcodes(barcodes@), self.config) == Ok::<
                    Seq<u8>,
                    LayoutError,
                >(bytes@),
                Err(error) => spec_sheet_file(spec_barcodes(barcodes@), self.config) == Err::<
                    Seq<u8>,
                    LayoutError,
                >(error),
            },
    {
        self.create_barcode_grid_image(barcodes)
    }

    /// Margins that split the space left by `cols` columns and by the rows
    /// that fit the full height evenly, as `(margin_x, margin_y)`.
    pub fn calculate_auto_margins(
        &self,
        barcode_width: u32,
        barcode_height: u32,
        image_width: u32,
        image_height: u32,
        cols: u32,
    ) -> (margins: (u32, u32))
        requires
            barcode_height > 0,
        ensures
            margins.0 == spec_auto_margin(image_width as nat, barcode_width as nat, cols as nat),
            margins.1 == spec_auto_margin(
                image_height as nat,
                barcode_height as nat,
                image_height as nat / barcode_height as nat,
            ),
    {
        (
            auto_margin(image_width, barcode_width, cols),
            auto_margin(image_height, barcode_height, image_height / barcode_height),
        )
    }

    /// Lays every barcode of a batch into the grid of one white sheet, left
    /// to right and top to bottom, each fitted to its cell and centered in
    /// it, and writes the sheet as a PNG file.
    pub fn create_barcode_grid_image(&self, barcodes: Vec<GeneratedBarcode>) -> (file: Result<
        Vec<u8>,
        LayoutError,
    >)
        ensures
            match file {
                Ok(bytes) => spec_sheet_file(spec_barcodes(barcodes@), self.config) == Ok::<
                    Seq<u8>,
                    LayoutError,
                >(bytes@),
                Err(error) => spec_sheet_file(spec_barcodes(barcodes@), self.config) == Err::<
                    Seq<u8>,
                    LayoutError,
                >(error),
            },
    {
        if barcodes.len() == 0 {
            return Err(LayoutError::EmptyBatch);
        }
        let first: &GeneratedBarcode = &barcodes[0];
        assert(spec_barcodes(barcodes@)[0] == first@);
        let (cell_width, cell_height) = first.buffer.dimensions();
        if cell_width == 0 || cell_height == 0 {
            return Err(LayoutError::EmptyBarcode);
        }
        let (page_width, page_height) = get_paper_dimensions_px(&self.config.paper);
        let grid = plan_grid(page_width, page_height, cell_width, cell_height, self.config.auto_margin);
        let sheet = compose_page(barcodes.as_slice(), 0, barcodes.len(), &grid, self.config.use_grid);
        match encode_page(&sheet) {
            None => Err(LayoutError::Encoding),
            Some(bytes) => Ok(bytes),
        }
    }
}

} // verus!
