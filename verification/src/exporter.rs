//! Export of barcodes to other final formats.

use vstd::prelude::*;
use crate::generator::GeneratedBarcode;

verus! {

/// Exports barcodes to other final formats.
pub struct Exporter {}

impl Exporter {
    pub fn new() -> (exporter: Self) {
        Self {  }
    }

    /// Takes a barcode and exports nothing: no other final format is
    /// supported.
    pub fn export_barcodes_to_pdf(&self, _barcodes: GeneratedBarcode) {
    }
}

} // verus!
