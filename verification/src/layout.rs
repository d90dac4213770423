//! What a page layout asks for.

use vstd::prelude::*;
use crate::barcode_config::BarcodeConfig;
use crate::generator::spec_barcodes;
use crate::generator::BarcodeView;
use crate::generator::GeneratedBarcode;
use crate::paper::Paper;
use crate::pdf_exporter::spec_sheet_file;
use crate::pdf_exporter::PdfExportConfig;
use crate::pdf_exporter::PdfExporter;
use crate::png_exporter::spec_export_image;
use crate::png_exporter::spec_full_export;
use crate::png_exporter::ExportResult;
use crate::png_exporter::GenerationResult;
use crate::png_exporter::LayoutError;
use crate::png_exporter::PngExporter;
use crate::png_exporter::ResultView;

verus! {

/// The kind of file that an export produces.
#[derive(Clone, Copy, Debug, PartialEq, Eq, Structural)]
pub enum ExportFile {
    PDF,
    PNG,
}

/// A page layout: the paper, whether the margins follow from the leftover
/// space or are fixed, whether cut lines are drawn, and the kind of file.
#[derive(Debug)]
pub struct Layout {
    pub config: BarcodeConfig,
    pub max_rows: u32,
    pub max_cols: u32,
    pub paper: Paper,
    pub auto_margin: bool,
    pub grid_borders: bool,
    pub export_file: ExportFile,
}

/// The single-sheet export that a layout asks for.
pub open spec fn spec_sheet_config(paper: Paper, auto_margin: bool, grid_borders: bool) -> PdfExportConfig {
    PdfExportConfig { use_grid: grid_borders, auto_margin, paper }
}

/// The file that previews a layout: the first page of a PNG export, or the
/// sheet of a PDF export.
pub open spec fn spec_export_preview(
    barcodes: Seq<BarcodeView>,
    paper: Paper,
    auto_margin: bool,
    grid_borders: bool,
    export_file: ExportFile,
) -> Result<Seq<u8>, LayoutError> {
    match export_file {
        ExportFile::PNG => match spec_export_image(barcodes, 0, paper, auto_margin, grid_borders) {
            Ok(page) => Ok(page.page),
            Err(error) => Err(error),
        },
        ExportFile::PDF => spec_sheet_file(
            barcodes,
            spec_sheet_config(paper, auto_margin, grid_borders),
        ),
    }
}

/// The files of the pages of a list of generated pages.
pub open spec fn spec_page_files(pages: Seq<ResultView>) -> Seq<Seq<u8>> {
    pages.map_values(|page: ResultView| page.page)
}

/// The files that an export writes: every page of a PNG export, in order;
/// none for a PDF export.
pub open spec fn spec_export_pages(
    barcodes: Seq<BarcodeView>,
    paper: Paper,
    auto_margin: bool,
    grid_borders: bool,
    export_file: ExportFile,
) -> Result<Seq<Seq<u8>>, LayoutError> {
    match export_file {
        ExportFile::PNG => match spec_full_export(barcodes, paper, auto_margin, grid_borders) {
            Ok(pages) => Ok(spec_page_files(pages)),
            Err(error) => Err(error),
        },
        ExportFile::PDF => Ok(Seq::empty()),
    }
}

/// The mathematical content of a list of files.
pub open spec fn spec_files(files: Seq<Vec<u8>>) -> Seq<Seq<u8>> {
    files.map_values(|file: Vec<u8>| file@)
}

/// Turns a layout and a batch of barcodes into the files of an export.
pub struct ExportManager {}

impl ExportManager {
    pub fn new() -> (manager: Self) {
        Self {  }
    }

    /// The files of an export: every page of a PNG export, in order; none
    /// for a PDF export. The first page that fails makes the export fail.
    pub fn generate_export_pages(&self, layout: Layout, barcodes: Vec<GeneratedBarcode>) -> (export: Result<
        ExportResult,
        LayoutError,
    >)
        ensures
            match export {
                Ok(files) => spec_export_pages(
                    spec_barcodes(barcodes@),
                    layout.paper,
                    layout.auto_margin,
                    layout.grid_borders,
                    layout.export_file,
                ) == Ok::<Seq<Seq<u8>>, LayoutError>(spec_files(files.pages@)),
                Err(error) => spec_export_pages(
                    spec_barcodes(barcodes@),
                    layout.paper,
                    layout.auto_margin,
                    layout.grid_borders,
                    layout.export_file,
                ) == Err::<Seq<Seq<u8>>, LayoutError>(error),
            },
    {
        match layout.export_file {
            ExportFile::PDF => {
                let pages: Vec<Vec<u8>> = Vec::new();
                assert(spec_files(pages@) =~= Seq::empty());
                Ok(ExportResult { pages })
            },
            ExportFile::PNG => {
                let exporter = PngExporter::new(layout);
                match exporter.create_full_export(barcodes.as_slice()) {
                    Err(error) => Err(error),
                    Ok(results) => {
                        let mut results: Vec<GenerationResult> = results;
                        let ghost all = results@;
                        let mut pages: Vec<Vec<u8>> = Vec::new();
                        let mut i: usize = 0;
                        while i < results.len()
                            invariant
                                i <= results@.len(),
                                results@.len() == all.len(),
                                pages@.len() == i,
                                forall|k: int| i <= k < results@.len() ==> results@[k] == all[k],
                                forall|k: int| 0 <= k < i ==> pages@[k]@ == all[k].page@,
                            decreases results@.len() - i,
                        {
                            let mut page: Vec<u8> = Vec::new();
                            core::mem::swap(&mut results[i].page, &mut page);
                            pages.push(page);
                            i += 1;
                        }
                        assert(spec_files(pages@) =~= spec_page_files(
                            crate::png_exporter::spec_results(all),
                        ));
                        Ok(ExportResult { pages })
                    },
                }
            },
        }
    }

    /// The file that previews a layout: the first page of a PNG export, or
    /// the sheet of a PDF export.
    pub fn generate_export_preview(&self, layout: Layout, barcodes: Vec<GeneratedBarcode>) -> (preview: Result<
        Vec<u8>,
        LayoutError,
    >)
        ensures
            match preview {
                Ok(file) => spec_export_preview(
                    spec_barcodes(barcodes@),
                    layout.paper,
                    layout.auto_margin,
                    layout.grid_borders,
                    layout.export_file,
                ) == Ok::<Seq<u8>, LayoutError>(file@),
                Err(error) => spec_export_preview(
                    spec_barcodes(barcodes@),
                    layout.paper,
                    layout.auto_margin,
                    layout.grid_borders,
                    layout.export_file,
                ) == Err::<Seq<u8>, LayoutError>(error),
            },
    {
        match layout.export_file {
            ExportFile::PNG => {
                let exporter = PngExporter::new(layout);
                match exporter.create_export_preview(barcodes.as_slice()) {
                    Ok(page) => Ok(page.page),
                    Err(error) => Err(error),
                }
            },
            ExportFile::PDF => {
                let exporter = PdfExporter::new(
                    PdfExportConfig {
                        use_grid: layout.grid_borders,
                        auto_margin: layout.auto_margin,
                        paper: layout.paper,
                    },
                );
                exporter.create_pdf(barcodes)
            },
        }
    }
}

} // verus!
