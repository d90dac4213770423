//! Barcode sheets: unit conversion, raster editing, per-format payload rules,
//! barcode sizing and the page layout engine that tiles barcodes onto paper.
//!
//! Physical lengths are fixed-point integers: millimeters are carried as
//! micrometers, inches as thousandths of an inch, percentages as whole percents.

pub mod calculator;
pub mod raster;
pub mod image_editor;
pub mod barcode_config;
pub mod paper;
pub mod generator;
pub mod layout;
pub mod grid;
pub mod page;
pub mod png_exporter;
pub mod pdf_exporter;
pub mod validator;
pub mod templates;
pub mod database;
pub mod bulk_generator;
pub mod frontend_interface;
pub mod exporter;
