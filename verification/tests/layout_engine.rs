use rust_barcode_generator::barcode_config::BarcodeConfigBuilder;
use rust_barcode_generator::exporter::Exporter;
use rust_barcode_generator::generator::GeneratedBarcode;
use rust_barcode_generator::layout::ExportFile;
use rust_barcode_generator::layout::ExportManager;
use rust_barcode_generator::layout::Layout;
use rust_barcode_generator::paper::Paper;
use rust_barcode_generator::pdf_exporter::PdfExportConfig;
use rust_barcode_generator::pdf_exporter::PdfExporter;
use rust_barcode_generator::grid::auto_margin;
use rust_barcode_generator::page::cell_sides;
use rust_barcode_generator::page::compose_page;
use rust_barcode_generator::png_exporter::copy_barcodes;
use rust_barcode_generator::page::encode_page;
use rust_barcode_generator::page::fit_to_cell;
use rust_barcode_generator::grid::max_barcodes;
use rust_barcode_generator::grid::plan_grid;
use rust_barcode_generator::png_exporter::LayoutError;
use rust_barcode_generator::grid::PageGrid;
use rust_barcode_generator::png_exporter::PngExporter;
use rust_barcode_generator::image_editor::Side;
use rust_barcode_generator::raster::Bitmap;
use rust_barcode_generator::raster::RgbWrapper;

const WHITE: [u8; 3] = [255, 255, 255];
const BLACK: [u8; 3] = [0, 0, 0];
const GRAY: [u8; 3] = [211, 211, 211];

fn barcode(name: &str, width: u32, height: u32, level: u8) -> GeneratedBarcode {
    GeneratedBarcode {
        file_path: format!("{}.png", name),
        value: name.to_string(),
        buffer: Bitmap::new(width, height, level).unwrap(),
    }
}

fn batch(count: usize, width: u32, height: u32) -> Vec<GeneratedBarcode> {
    (0..count).map(|i| barcode(&format!("b{}", i), width, height, 0)).collect()
}

fn layout(auto_margin: bool, grid_borders: bool, export_file: ExportFile) -> Layout {
    Layout {
        config: BarcodeConfigBuilder::new().build(),
        max_rows: 0,
        max_cols: 0,
        paper: Paper::A4,
        auto_margin,
        grid_borders,
        export_file,
    }
}

fn exporter(auto_margin: bool, grid_borders: bool) -> PngExporter {
    PngExporter::new(layout(auto_margin, grid_borders, ExportFile::PNG))
}

fn values(barcodes: &[GeneratedBarcode]) -> Vec<String> {
    barcodes.iter().map(|barcode| barcode.value.clone()).collect()
}

fn decode(file: &[u8]) -> image::RgbImage {
    image::load_from_memory(file).unwrap().to_rgb8()
}

#[test]
fn grid_with_automatic_margins() {
    let grid = plan_grid(2480, 3508, 1000, 1000, true);
    assert_eq!(
        grid,
        PageGrid {
            page_width: 2480,
            page_height: 3508,
            cell_width: 1000,
            cell_height: 1000,
            cols: 2,
            margin_x: 240,
            margin_y: 254,
            max_per_page: 6,
        }
    );
}

#[test]
fn grid_with_fixed_margins() {
    let grid = plan_grid(2480, 3508, 1000, 1000, false);
    assert_eq!((grid.cols, grid.margin_x, grid.margin_y, grid.max_per_page), (2, 20, 20, 6));
    // Four rows fit the full height, three the height between the margins.
    let tight = plan_grid(2480, 3508, 620, 877, false);
    assert_eq!((tight.cols, tight.margin_x, tight.margin_y, tight.max_per_page), (4, 20, 20, 12));
    let exact = plan_grid(2480, 3508, 620, 877, true);
    assert_eq!((exact.cols, exact.margin_x, exact.margin_y, exact.max_per_page), (4, 0, 0, 16));
}

#[test]
fn grid_has_at_least_one_column() {
    let wide = plan_grid(2480, 3508, 3000, 100, true);
    assert_eq!((wide.cols, wide.margin_x, wide.margin_y, wide.max_per_page), (1, 0, 4, 35));
    let fixed = plan_grid(2480, 3508, 3000, 100, false);
    assert_eq!((fixed.cols, fixed.margin_x, fixed.margin_y, fixed.max_per_page), (1, 20, 20, 34));
}

#[test]
fn grid_of_a_barcode_higher_than_the_page_holds_nothing() {
    let tall = plan_grid(2480, 3508, 100, 4000, true);
    assert_eq!((tall.cols, tall.margin_y, tall.max_per_page), (24, 1754, 0));
    let fixed = plan_grid(2480, 3508, 100, 3469, false);
    assert_eq!(fixed.max_per_page, 0);
    let fits = plan_grid(2480, 3508, 100, 3468, false);
    assert_eq!(fits.max_per_page, 24);
    let small_page = plan_grid(30, 30, 10, 10, false);
    assert_eq!(small_page.max_per_page, 0);
}

#[test]
fn margins_and_capacity_by_themselves() {
    assert_eq!(auto_margin(2480, 1000, 2), 240);
    assert_eq!(auto_margin(3508, 1000, 3), 254);
    assert_eq!(auto_margin(100, 30, 3), 5);
    assert_eq!(auto_margin(100, 60, 2), 0);
    assert_eq!(auto_margin(100, 50, 2), 0);
    assert_eq!(max_barcodes(2, 254, 0, 1000, 3508), 6);
    assert_eq!(max_barcodes(4, 20, 0, 877, 3508), 12);
    assert_eq!(max_barcodes(4, 20, 123, 877, 3508), 12);
    assert_eq!(max_barcodes(4, 20, 300, 877, 3508), 8);
    assert_eq!(max_barcodes(4, 2000, 0, 877, 3508), 0);
    let png = exporter(true, true);
    assert_eq!(png.calculate_auto_margins(1000, 1000, 2480, 3508, 2), (240, 254));
    assert_eq!(png.calculate_max_barcodes(2, 254, 0, 1000, 3508), 6);
    let pdf = PdfExporter::new(PdfExportConfig { use_grid: true, auto_margin: true, paper: Paper::A4 });
    assert_eq!(pdf.calculate_auto_margins(620, 877, 2480, 3508, 4), (0, 0));
}

#[test]
fn barcode_that_fits_the_cell_stays_as_it_is() {
    let small = Bitmap::from_pixels(2, 2, vec![1u8, 2, 3, 4]).unwrap();
    let fitted = fit_to_cell(&small, 10, 10);
    assert_eq!(fitted.dimensions(), (2, 2));
    assert_eq!(fitted.pixels(), small.pixels());
    let exact = fit_to_cell(&small, 2, 2);
    assert_eq!(exact.pixels(), small.pixels());
}

#[test]
fn barcode_larger_than_the_cell_keeps_its_aspect_ratio() {
    let wide = Bitmap::new(200, 100, 0u8).unwrap();
    assert_eq!(fit_to_cell(&wide, 100, 100).dimensions(), (100, 50));
    let tall = Bitmap::new(100, 200, 0u8).unwrap();
    assert_eq!(fit_to_cell(&tall, 100, 100).dimensions(), (50, 100));
    let both = Bitmap::new(300, 200, 0u8).unwrap();
    assert_eq!(fit_to_cell(&both, 100, 100).dimensions(), (100, 66));
    assert_eq!(fit_to_cell(&both, 150, 50).dimensions(), (75, 50));
    let narrow = Bitmap::new(1000, 1, 0u8).unwrap();
    assert_eq!(fit_to_cell(&narrow, 10, 10).dimensions(), (10, 0));
    let higher = Bitmap::new(50, 200, 0u8).unwrap();
    assert_eq!(fit_to_cell(&higher, 100, 100).dimensions(), (25, 100));
}

#[test]
fn cut_lines_of_a_cell() {
    assert_eq!(cell_sides(0, 0), vec![Side::Top, Side::Bottom, Side::Left, Side::Right]);
    assert_eq!(cell_sides(0, 3), vec![Side::Top, Side::Bottom, Side::Right]);
    assert_eq!(cell_sides(2, 0), vec![Side::Bottom, Side::Left, Side::Right]);
    assert_eq!(cell_sides(2, 1), vec![Side::Bottom, Side::Right]);
}

#[test]
fn batch_that_fits_gives_one_page() {
    let barcodes = batch(3, 1000, 1000);
    let result = exporter(true, true).create_export_preview(&barcodes).unwrap();
    assert!(!result.has_more);
    assert_eq!(result.cursor, 3);
    assert_eq!(values(&result.used_barcodes), vec!["b0", "b1", "b2"]);
    assert_eq!(decode(&result.page).dimensions(), (2480, 3508));
    let pages = exporter(true, true).create_full_export(&barcodes).unwrap();
    assert_eq!(pages.len(), 1);
    assert_eq!(pages[0].page, result.page);
    assert!(!pages[0].has_more);
    assert_eq!(pages[0].cursor, 3);
}

#[test]
fn batch_that_fills_the_page_gives_one_page() {
    let barcodes = batch(4, 1240, 1754);
    let first = exporter(true, false).create_export_image(&barcodes, 0).unwrap();
    assert!(!first.has_more);
    assert_eq!(first.cursor, 4);
    assert_eq!(first.used_barcodes.len(), 4);
    assert_eq!(exporter(true, false).create_full_export(&barcodes).unwrap().len(), 1);
}

#[test]
fn page_holds_the_barcodes_and_the_cut_lines() {
    let barcodes = batch(3, 1000, 1000);
    let result = exporter(true, true).create_export_preview(&barcodes).unwrap();
    let page = decode(&result.page);
    assert_eq!(page.get_pixel(0, 0).0, WHITE);
    assert_eq!(page.get_pixel(239, 254).0, WHITE);
    assert_eq!(page.get_pixel(240, 253).0, WHITE);
    assert_eq!(page.get_pixel(2479, 3507).0, WHITE);
    // First cell: first row, first column.
    assert_eq!(page.get_pixel(740, 754).0, BLACK);
    assert_eq!(page.get_pixel(240, 254).0, GRAY);
    assert_eq!(page.get_pixel(740, 254).0, GRAY);
    assert_eq!(page.get_pixel(740, 255).0, BLACK);
    assert_eq!(page.get_pixel(740, 1253).0, GRAY);
    assert_eq!(page.get_pixel(240, 754).0, GRAY);
    assert_eq!(page.get_pixel(241, 754).0, BLACK);
    assert_eq!(page.get_pixel(1239, 754).0, GRAY);
    // Second cell: first row, second column.
    assert_eq!(page.get_pixel(1240, 754).0, BLACK);
    assert_eq!(page.get_pixel(1740, 254).0, GRAY);
    assert_eq!(page.get_pixel(2239, 754).0, GRAY);
    assert_eq!(page.get_pixel(1740, 1253).0, GRAY);
    assert_eq!(page.get_pixel(2240, 754).0, WHITE);
    // Third cell: second row, first column.
    assert_eq!(page.get_pixel(740, 1254).0, BLACK);
    assert_eq!(page.get_pixel(240, 1754).0, GRAY);
    assert_eq!(page.get_pixel(1239, 1754).0, GRAY);
    assert_eq!(page.get_pixel(740, 2253).0, GRAY);
    // Fourth cell is empty.
    assert_eq!(page.get_pixel(1740, 1754).0, WHITE);
    assert_eq!(page.get_pixel(740, 2254).0, WHITE);
}

#[test]
fn page_without_cut_lines() {
    let barcodes = batch(2, 1000, 1000);
    let result = exporter(false, false).create_export_preview(&barcodes).unwrap();
    let page = decode(&result.page);
    assert_eq!(page.get_pixel(19, 19).0, WHITE);
    assert_eq!(page.get_pixel(20, 20).0, BLACK);
    assert_eq!(page.get_pixel(1019, 1019).0, BLACK);
    assert_eq!(page.get_pixel(1020, 20).0, BLACK);
    assert_eq!(page.get_pixel(2019, 1019).0, BLACK);
    assert_eq!(page.get_pixel(2020, 20).0, WHITE);
    assert_eq!(page.get_pixel(20, 1020).0, WHITE);
}

#[test]
fn last_column_is_cut_at_the_edge_with_fixed_margins() {
    let barcodes = batch(4, 620, 877);
    let result = exporter(false, false).create_export_preview(&barcodes).unwrap();
    let page = decode(&result.page);
    // The fourth column starts at 20 + 3 * 620 and would end at 2500.
    assert_eq!(page.get_pixel(1880, 20).0, BLACK);
    assert_eq!(page.get_pixel(2479, 20).0, BLACK);
    assert_eq!(page.get_pixel(2479, 896).0, BLACK);
    assert_eq!(page.get_pixel(2479, 897).0, WHITE);
}

#[test]
fn barcodes_of_other_sizes_are_fitted_and_centered() {
    let barcodes = vec![
        barcode("first", 1000, 1000, 0),
        barcode("wide", 2000, 1000, 0),
        barcode("small", 500, 500, 0),
    ];
    let result = exporter(true, false).create_export_preview(&barcodes).unwrap();
    let page = decode(&result.page);
    // The wide one is brought to 1000 by 500 and centered in the second cell.
    assert_eq!(page.get_pixel(1240, 254).0, WHITE);
    assert_eq!(page.get_pixel(1240, 503).0, WHITE);
    assert_eq!(page.get_pixel(1240, 504).0, BLACK);
    assert_eq!(page.get_pixel(2239, 1003).0, BLACK);
    assert_eq!(page.get_pixel(2239, 1004).0, WHITE);
    // The small one keeps its size and is centered in the third cell.
    assert_eq!(page.get_pixel(489, 1504).0, WHITE);
    assert_eq!(page.get_pixel(490, 1503).0, WHITE);
    assert_eq!(page.get_pixel(490, 1504).0, BLACK);
    assert_eq!(page.get_pixel(989, 2003).0, BLACK);
    assert_eq!(page.get_pixel(990, 2003).0, WHITE);
    assert_eq!(page.get_pixel(989, 2004).0, WHITE);
}

#[test]
fn gray_levels_are_kept() {
    let barcodes = vec![barcode("gray", 1000, 1000, 77)];
    let result = exporter(true, false).create_export_preview(&barcodes).unwrap();
    let page = decode(&result.page);
    assert_eq!(page.get_pixel(740, 754).0, [77, 77, 77]);
}

#[test]
fn pages_follow_the_cursor() {
    let barcodes = batch(5, 1240, 1754);
    let png = exporter(false, false);
    // Two columns and, between the fixed margins, one row.
    let first = png.create_export_image(&barcodes, 0).unwrap();
    assert_eq!(first.cursor, 2);
    assert!(first.has_more);
    assert_eq!(values(&first.used_barcodes), vec!["b0", "b1"]);
    let second = png.create_export_image(&barcodes, first.cursor).unwrap();
    assert_eq!(second.cursor, 4);
    assert!(second.has_more);
    assert_eq!(values(&second.used_barcodes), vec!["b2", "b3"]);
    let third = png.create_export_image(&barcodes, second.cursor).unwrap();
    assert_eq!(third.cursor, 5);
    assert!(!third.has_more);
    assert_eq!(values(&third.used_barcodes), vec!["b4"]);
    let page = decode(&third.page);
    assert_eq!(page.get_pixel(20, 20).0, BLACK);
    assert_eq!(page.get_pixel(1260, 20).0, WHITE);
}

#[test]
fn full_export_covers_every_barcode_once_and_in_order() {
    let barcodes = batch(5, 1240, 1754);
    let pages = exporter(false, true).create_full_export(&barcodes).unwrap();
    assert_eq!(pages.len(), 3);
    let mut seen: Vec<String> = Vec::new();
    for (index, page) in pages.iter().enumerate() {
        assert_eq!(page.has_more, index + 1 < pages.len());
        assert_eq!(page.cursor, (2 * (index + 1)).min(5));
        seen.extend(values(&page.used_barcodes));
        assert_eq!(decode(&page.page).dimensions(), (2480, 3508));
    }
    assert_eq!(seen, values(&barcodes));
}

#[test]
fn full_export_of_a_multiple_of_the_capacity() {
    let barcodes = batch(8, 1240, 1754);
    let pages = exporter(true, false).create_full_export(&barcodes).unwrap();
    assert_eq!(pages.len(), 2);
    assert_eq!(pages[0].used_barcodes.len(), 4);
    assert_eq!(pages[1].used_barcodes.len(), 4);
    assert_eq!(pages[1].cursor, 8);
    assert!(pages[0].has_more);
    assert!(!pages[1].has_more);
}

#[test]
fn cursor_at_the_end_gives_an_empty_page() {
    let barcodes = batch(2, 1000, 1000);
    let result = exporter(true, true).create_export_image(&barcodes, 2).unwrap();
    assert_eq!(result.cursor, 2);
    assert!(!result.has_more);
    assert!(result.used_barcodes.is_empty());
    let page = decode(&result.page);
    assert_eq!(page.get_pixel(740, 754).0, WHITE);
}

#[test]
fn empty_batch_is_refused() {
    let barcodes: Vec<GeneratedBarcode> = Vec::new();
    let png = exporter(true, false);
    assert_eq!(png.create_export_preview(&barcodes).unwrap_err(), LayoutError::EmptyBatch);
    assert_eq!(png.create_export_image(&barcodes, 0).unwrap_err(), LayoutError::EmptyBatch);
    assert_eq!(png.create_export_image(&barcodes, 3).unwrap_err(), LayoutError::EmptyBatch);
    assert_eq!(png.create_full_export(&barcodes).unwrap_err(), LayoutError::EmptyBatch);
    assert_eq!(png.plan(&barcodes, 0).unwrap_err(), LayoutError::EmptyBatch);
}

#[test]
fn cursor_beyond_the_batch_is_refused() {
    let barcodes = batch(2, 1000, 1000);
    let png = exporter(true, false);
    assert_eq!(png.create_export_image(&barcodes, 3).unwrap_err(), LayoutError::CursorOutOfRange);
    assert_eq!(png.plan(&barcodes, usize::MAX).unwrap_err(), LayoutError::CursorOutOfRange);
}

#[test]
fn first_barcode_without_pixels_is_refused() {
    let barcodes = vec![barcode("none", 0, 0, 0), barcode("some", 10, 10, 0)];
    let png = exporter(true, false);
    assert_eq!(png.create_export_preview(&barcodes).unwrap_err(), LayoutError::EmptyBarcode);
    assert_eq!(png.create_full_export(&barcodes).unwrap_err(), LayoutError::EmptyBarcode);
    let flat = vec![barcode("flat", 10, 0, 0)];
    assert_eq!(png.create_export_preview(&flat).unwrap_err(), LayoutError::EmptyBarcode);
}

#[test]
fn barcode_higher_than_the_page_is_refused() {
    let barcodes = batch(2, 100, 4000);
    assert_eq!(
        exporter(true, false).create_export_preview(&barcodes).unwrap_err(),
        LayoutError::BarcodeExceedsPage
    );
    assert_eq!(
        exporter(false, false).create_full_export(&barcodes).unwrap_err(),
        LayoutError::BarcodeExceedsPage
    );
}

#[test]
fn plan_gives_the_grid_of_the_batch() {
    let barcodes = batch(2, 1000, 1000);
    let grid = exporter(true, false).plan(&barcodes, 1).unwrap();
    assert_eq!(grid, plan_grid(2480, 3508, 1000, 1000, true));
}

#[test]
fn composed_page_is_what_is_encoded() {
    let barcodes = batch(2, 1000, 1000);
    let grid = plan_grid(2480, 3508, 1000, 1000, true);
    let page = compose_page(&barcodes, 0, 2, &grid, false);
    assert_eq!(page.dimensions(), (2480, 3508));
    assert_eq!(page.get_pixel(0, 0), RgbWrapper { r: 255, g: 255, b: 255 });
    assert_eq!(page.get_pixel(740, 754), RgbWrapper { r: 0, g: 0, b: 0 });
    let file = encode_page(&page).unwrap();
    let result = exporter(true, false).create_export_preview(&barcodes).unwrap();
    assert_eq!(file, result.page);
    let decoded = decode(&file);
    assert_eq!(decoded.as_raw(), &page.to_bytes());
}

#[test]
fn encoding_of_a_page_without_pixels_is_refused() {
    let page = Bitmap::new(0, 0, RgbWrapper { r: 0, g: 0, b: 0 }).unwrap();
    assert!(encode_page(&page).is_none());
}

#[test]
fn copies_of_a_stretch_of_barcodes() {
    let barcodes = batch(4, 3, 3);
    assert_eq!(values(&copy_barcodes(&barcodes, 1, 3)), vec!["b1", "b2"]);
    assert!(copy_barcodes(&barcodes, 2, 2).is_empty());
    assert_eq!(copy_barcodes(&barcodes, 0, 4).len(), 4);
}

#[test]
fn sheet_holds_the_whole_batch() {
    let barcodes = batch(3, 1000, 1000);
    let exporter =
        PdfExporter::new(PdfExportConfig { use_grid: true, auto_margin: true, paper: Paper::A4 });
    let file = exporter.create_pdf(barcodes.clone()).unwrap();
    let sheet = decode(&file);
    assert_eq!(sheet.dimensions(), (2480, 3508));
    assert_eq!(sheet.get_pixel(740, 754).0, BLACK);
    assert_eq!(sheet.get_pixel(240, 254).0, GRAY);
    assert_eq!(sheet.get_pixel(740, 1254).0, BLACK);
    assert_eq!(sheet.get_pixel(0, 0).0, WHITE);
    assert_eq!(exporter.create_barcode_grid_image(barcodes).unwrap(), file);
}

#[test]
fn sheet_cuts_off_what_the_page_has_no_room_for() {
    let barcodes = batch(5, 1240, 1754);
    let exporter =
        PdfExporter::new(PdfExportConfig { use_grid: false, auto_margin: false, paper: Paper::A4 });
    let sheet = decode(&exporter.create_pdf(barcodes).unwrap());
    assert_eq!(sheet.get_pixel(20, 20).0, BLACK);
    // Second row starts at 20 + 1754, third at 20 + 3508: below the page.
    assert_eq!(sheet.get_pixel(20, 1774).0, BLACK);
    assert_eq!(sheet.get_pixel(1260, 1774).0, BLACK);
    assert_eq!(sheet.get_pixel(20, 3507).0, BLACK);
    assert_eq!(sheet.get_pixel(19, 3507).0, WHITE);
}

#[test]
fn sheet_of_nothing_is_refused() {
    let exporter =
        PdfExporter::new(PdfExportConfig { use_grid: true, auto_margin: true, paper: Paper::A4 });
    assert_eq!(exporter.create_pdf(Vec::new()).unwrap_err(), LayoutError::EmptyBatch);
    assert_eq!(
        exporter.create_pdf(vec![barcode("none", 0, 5, 0)]).unwrap_err(),
        LayoutError::EmptyBarcode
    );
}

#[test]
fn preview_is_the_first_page_or_the_sheet() {
    let manager = ExportManager::new();
    let barcodes = batch(5, 1240, 1754);
    let png = manager
        .generate_export_preview(layout(false, true, ExportFile::PNG), barcodes.clone())
        .unwrap();
    let first = exporter(false, true).create_export_preview(&barcodes).unwrap();
    assert_eq!(png, first.page);
    let pdf = manager
        .generate_export_preview(layout(false, true, ExportFile::PDF), barcodes.clone())
        .unwrap();
    let sheet =
        PdfExporter::new(PdfExportConfig { use_grid: true, auto_margin: false, paper: Paper::A4 })
            .create_pdf(barcodes)
            .unwrap();
    assert_eq!(pdf, sheet);
    assert!(png != pdf);
}

#[test]
fn export_gives_the_pages_in_order() {
    let manager = ExportManager::new();
    let barcodes = batch(3, 1240, 1754);
    let export =
        manager.generate_export_pages(layout(false, false, ExportFile::PNG), barcodes.clone()).unwrap();
    let pages = exporter(false, false).create_full_export(&barcodes).unwrap();
    assert_eq!(export.pages.len(), 2);
    assert_eq!(export.pages[0], pages[0].page);
    assert_eq!(export.pages[1], pages[1].page);
    assert!(export.pages[0] != export.pages[1]);
    let none = manager.generate_export_pages(layout(false, false, ExportFile::PDF), barcodes).unwrap();
    assert!(none.pages.is_empty());
}

#[test]
fn export_fails_as_its_first_page_fails() {
    let manager = ExportManager::new();
    assert_eq!(
        manager.generate_export_pages(layout(true, true, ExportFile::PNG), Vec::new()).unwrap_err(),
        LayoutError::EmptyBatch
    );
    assert_eq!(
        manager
            .generate_export_preview(layout(true, true, ExportFile::PNG), batch(1, 10, 4000))
            .unwrap_err(),
        LayoutError::BarcodeExceedsPage
    );
    assert_eq!(
        manager.generate_export_preview(layout(true, true, ExportFile::PDF), Vec::new()).unwrap_err(),
        LayoutError::EmptyBatch
    );
}

#[test]
fn exporter_takes_a_barcode() {
    let exporter = Exporter::new();
    exporter.export_barcodes_to_pdf(barcode("one", 3, 3, 0));
}
