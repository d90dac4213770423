//! Bulk generation: one barcode for each row of an imported table.

use vstd::prelude::*;
use vstd::string::*;
use crate::barcode_config::spec_built_style;
use crate::barcode_config::spec_default_config;
use crate::barcode_config::spec_format_name;
use crate::barcode_config::spec_resolved;
use crate::barcode_config::BarcodeConfig;
use crate::barcode_config::BarcodeConfigBuilder;
use crate::barcode_config::BarcodeConfigInternal;
use crate::barcode_config::BarcodeDimensions;
use crate::barcode_config::BarcodeFormat;
use crate::barcode_config::ConfigView;
use crate::barcode_config::TextPosition;
use crate::barcode_config::TextStyle;
use crate::generator::spec_answer;
use crate::generator::spec_barcodes;
use crate::generator::spec_encode_request;
use crate::generator::spec_encoder_answer;
use crate::generator::spec_generated;
use crate::generator::BarcodeView;
use crate::generator::EncodeRequest;
use crate::generator::GeneratedBarcode;
use crate::generator::GenerationError;
use crate::generator::Generator;
use crate::generator::RawSymbol;
use crate::generator::RequestView;
use crate::generator::SymbolView;
use crate::image_editor::DEFAULT_DPI;
use crate::raster::RgbWrapper;

verus! {

/// The mathematical content of a row.
pub struct RowView {
    pub value: Seq<char>,
    pub upper_center_text: Seq<char>,
    pub lower_center_text: Seq<char>,
    pub scale: i32,
    pub height_percentage: u32,
    pub width_percentage: u32,
    pub font_size: u32,
}

/// One row of an imported table: the payload, the text above and the text
/// below the barcode, the module-to-pixel scale, the two percentages and
/// the size of the font.
#[derive(Debug)]
pub struct BarcodeImportRowCSV {
    pub value: String,
    pub upper_center_text: String,
    pub lower_center_text: String,
    pub scale: i32,
    pub height_percentage: u32,
    pub width_percentage: u32,
    pub font_size: u32,
}

impl View for BarcodeImportRowCSV {
    type V = RowView;

    open spec fn view(&self) -> RowView {
        RowView {
            value: self.value@,
            upper_center_text: self.upper_center_text@,
            lower_center_text: self.lower_center_text@,
            scale: self.scale,
            height_percentage: self.height_percentage,
            width_percentage: self.width_percentage,
            font_size: self.font_size,
        }
    }
}

impl Clone for BarcodeImportRowCSV {
    fn clone(&self) -> (copy: Self)
        ensures
            copy@ == self@,
    {
        BarcodeImportRowCSV {
            value: self.value.clone(),
            upper_center_text: self.upper_center_text.clone(),
            lower_center_text: self.lower_center_text.clone(),
            scale: self.scale,
            height_percentage: self.height_percentage,
            width_percentage: self.width_percentage,
            font_size: self.font_size,
        }
    }
}

/// The mathematical content of a list of rows.
pub open spec fn spec_rows(rows: Seq<BarcodeImportRowCSV>) -> Seq<RowView> {
    rows.map_values(|row: BarcodeImportRowCSV| row@)
}

/// The color of the texts of a bulk barcode.
pub open spec fn spec_bulk_text_color() -> RgbWrapper {
    RgbWrapper { r: 255, g: 0, b: 0 }
}

/// The texts of the barcode of a row: the upper text, if there is one,
/// centered above; then the lower text, if there is one, centered below.
pub open spec fn spec_row_texts(row: RowView) -> Seq<TextStyle> {
    let upper = if row.upper_center_text.len() > 0 {
        seq![
            spec_built_style(
                row.upper_center_text,
                spec_bulk_text_color(),
                row.font_size,
                TextPosition::UpperCenter,
            ),
        ]
    } else {
        Seq::empty()
    };
    if row.lower_center_text.len() > 0 {
        upper.push(
            spec_built_style(
                row.lower_center_text,
                spec_bulk_text_color(),
                row.font_size,
                TextPosition::LowerCenter,
            ),
        )
    } else {
        upper
    }
}

/// The request for the barcode of a row: Code 39, the texts of the row,
/// its scale and percentages, the default physical size, and its value as
/// the payload.
pub open spec fn spec_row_config(row: RowView) -> ConfigView {
    ConfigView {
        format: spec_format_name(BarcodeFormat::Code39),
        texts: spec_row_texts(row),
        scale: row.scale,
        quiet_zones: true,
        dimensions: BarcodeDimensions {
            height_percentage: row.height_percentage,
            width_percentage: row.width_percentage,
            ..spec_default_config().dimensions
        },
        data: row.value,
    }
}

/// The file of the barcode of a payload: `<output_dir>/<value>.png`.
pub open spec fn spec_row_path(output_dir: Seq<char>, value: Seq<char>) -> Seq<char> {
    output_dir + "/"@ + value + ".png"@
}

/// What the symbology encoder is asked for a row, or the rule that the
/// value of the row breaks.
pub open spec fn spec_row_request(row: RowView) -> Result<RequestView, GenerationError> {
    let config = spec_resolved(spec_row_config(row));
    spec_encode_request(config.format, row.value, config.scale, config.quiet_zones)
}

/// What generating the barcode of a row gives, from the answer of the
/// symbology encoder on.
pub open spec fn spec_row_generated(
    row: RowView,
    encoded: Option<SymbolView>,
    output_dir: Seq<char>,
    dpi: nat,
) -> Result<BarcodeView, GenerationError> {
    let config = spec_resolved(spec_row_config(row));
    spec_generated(
        encoded,
        row.value,
        config.format,
        config.dimensions,
        config.texts,
        spec_row_path(output_dir, row.value),
        dpi,
    )
}

/// The answer of the symbology encoder for a row: nothing when the value
/// of the row breaks a rule of the format, so that the encoder is not
/// asked, or when the encoder refuses.
pub open spec fn spec_row_answer(row: RowView) -> Option<SymbolView> {
    let config = spec_resolved(spec_row_config(row));
    spec_encoder_answer(config.format, row.value, config.scale, config.quiet_zones)
}

/// The answers of the symbology encoder for rows, one for each row.
pub open spec fn spec_rows_answers(rows: Seq<RowView>) -> Seq<Option<SymbolView>> {
    Seq::new(rows.len(), |i: int| spec_row_answer(rows[i]))
}

/// The mathematical content of the answers of the symbology encoder.
pub open spec fn spec_answers(symbols: Seq<Option<RawSymbol>>) -> Seq<Option<SymbolView>> {
    symbols.map_values(|encoded: Option<RawSymbol>| spec_answer(encoded))
}

/// What generating the barcodes of rows gives, from the answers of the
/// symbology encoder on: one barcode for each row, in order, or the failure
/// of the first row that fails.
pub open spec fn spec_bulk_generated(
    rows: Seq<RowView>,
    symbols: Seq<Option<SymbolView>>,
    output_dir: Seq<char>,
    dpi: nat,
) -> Result<Seq<BarcodeView>, GenerationError>
    recommends
        rows.len() == symbols.len(),
    decreases rows.len(),
{
    if rows.len() == 0 {
        Ok(Seq::empty())
    } else {
        match spec_bulk_generated(rows.drop_last(), symbols.drop_last(), output_dir, dpi) {
            Err(error) => Err(error),
            Ok(done) => match spec_row_generated(rows.last(), symbols.last(), output_dir, dpi) {
                Err(error) => Err(error),
                Ok(barcode) => Ok(done.push(barcode)),
            },
        }
    }
}

/// Generates the barcodes of imported rows.
#[derive(Debug)]
pub struct BulkGenerator {
    output_dir: String,
}

impl View for BulkGenerator {
    type V = Seq<char>;

    closed spec fn view(&self) -> Seq<char> {
        self.output_dir@
    }
}

impl BulkGenerator {
    /// A generator whose files go to the directory `output`.
    pub fn new() -> (generator: Self)
        ensures
            generator@ == "output"@,
    {
        BulkGenerator { output_dir: "output".to_owned() }
    }

    /// A generator whose files go to the given directory.
    pub fn with_output_dir(output_dir: String) -> (generator: Self)
        ensures
            generator@ == output_dir@,
    {
        BulkGenerator { output_dir }
    }

    /// The directory of the files.
    pub fn output_dir(&self) -> (directory: &String)
        ensures
            directory@ == self@,
    {
        &self.output_dir
    }

    /// The request for the barcode of a row.
    pub fn row_config(&self, row: &BarcodeImportRowCSV) -> (config: BarcodeConfig)
        ensures
            config@ == spec_row_config(row@),
    {
        let red = RgbWrapper { r: 255, g: 0, b: 0 };
        let mut builder = BarcodeConfigBuilder::new().set_format(BarcodeFormat::Code39);
        if !row.upper_center_text.as_str().is_empty() {
            builder = builder.add_text(
                row.upper_center_text.as_str(),
                red,
                row.font_size,
                TextPosition::UpperCenter,
            );
        }
        if !row.lower_center_text.as_str().is_empty() {
            builder = builder.add_text(
                row.lower_center_text.as_str(),
                red,
                row.font_size,
                TextPosition::LowerCenter,
            );
        }
        builder = builder.set_scale(row.scale);
        builder = builder.resize_height_percentage(row.height_percentage);
        builder = builder.resize_width_percentage(row.width_percentage);
        let mut config: BarcodeConfig = builder.build();
        config.data = row.value.clone();
        assert(config@.texts =~= spec_row_texts(row@));
        config
    }

    /// The file of the barcode of a payload: `<output_dir>/<value>.png`.
    pub fn row_path(&self, value: &str) -> (path: String)
        ensures
            path@ == spec_row_path(self@, value@),
    {
        let mut path: String = self.output_dir.clone();
        path.append("/");
        path.append(value);
        path.append(".png");
        path
    }

    /// What the symbology encoder is to be asked for a row, once the value
    /// of the row has passed the rules of the format.
    pub fn row_request(&self, row: &BarcodeImportRowCSV) -> (request: Result<
        EncodeRequest,
        GenerationError,
    >)
        ensures
            match request {
                Ok(asked) => spec_row_request(row@) == Ok::<RequestView, GenerationError>(asked@),
                Err(error) => spec_row_request(row@) == Err::<RequestView, GenerationError>(error),
            },
    {
        let generator = Generator::new();
        let internal = BarcodeConfigInternal::from_config(self.row_config(row));
        generator.encode_request(row.value.as_str(), &internal)
    }

    /// Asks the symbology encoder for the symbol of a row; not, when the
    /// value of the row breaks a rule of the format.
    pub fn encode_row(&self, row: &BarcodeImportRowCSV) -> (encoded: Option<RawSymbol>)
        ensures
            spec_answer(encoded) == spec_row_answer(row@),
    {
        match self.row_request(row) {
            Ok(request) => Generator::new().encode(&request),
            Err(_) => None,
        }
    }

    /// Asks the symbology encoder for the symbols of rows, one for each
    /// row.
    pub fn encode_rows(&self, barcodes: &Vec<BarcodeImportRowCSV>) -> (symbols: Vec<Option<RawSymbol>>)
        ensures
            spec_answers(symbols@) == spec_rows_answers(spec_rows(barcodes@)),
    {
        let mut symbols: Vec<Option<RawSymbol>> = Vec::new();
        let mut i: usize = 0;
        while i < barcodes.len()
            invariant
                i <= barcodes.len(),
                symbols@.len() == i,
                forall|k: int|
                    0 <= k < i ==> spec_answer(symbols@[k]) == spec_row_answer(barcodes@[k]@),
            decreases barcodes.len() - i,
        {
            let encoded: Option<RawSymbol> = self.encode_row(&barcodes[i]);
            symbols.push(encoded);
            i += 1;
        }
        assert(spec_answers(symbols@) =~= spec_rows_answers(spec_rows(barcodes@)));
        symbols
    }

    /// Finishes the barcode of a row at `dpi` dots per inch from the answer
    /// of the symbology encoder.
    pub fn finish_row(&self, row: &BarcodeImportRowCSV, encoded: Option<RawSymbol>, dpi: u32) -> (generated: Result<
        GeneratedBarcode,
        GenerationError,
    >)
        requires
            dpi > 0,
        ensures
            match generated {
                Ok(barcode) => spec_row_generated(row@, spec_answer(encoded), self@, dpi as nat)
                    == Ok::<BarcodeView, GenerationError>(barcode@),
                Err(error) => spec_row_generated(row@, spec_answer(encoded), self@, dpi as nat)
                    == Err::<BarcodeView, GenerationError>(error),
            },
    {
        let generator = Generator::new();
        let internal = BarcodeConfigInternal::from_config(self.row_config(row));
        let path: String = self.row_path(row.value.as_str());
        generator.finish_barcode(encoded, row.value.as_str(), internal, path.as_str(), dpi)
    }

    /// Generates the barcode of a row at `dpi` dots per inch, with the
    /// rooms of its texts.
    pub fn generate_row(&self, row: &BarcodeImportRowCSV, dpi: u32) -> (generated: Result<
        GeneratedBarcode,
        GenerationError,
    >)
        requires
            dpi > 0,
        ensures
            match generated {
                Ok(barcode) => spec_row_generated(row@, spec_row_answer(row@), self@, dpi as nat)
                    == Ok::<BarcodeView, GenerationError>(barcode@),
                Err(error) => spec_row_generated(row@, spec_row_answer(row@), self@, dpi as nat)
                    == Err::<BarcodeView, GenerationError>(error),
            },
    {
        let encoded: Option<RawSymbol> = self.encode_row(row);
        self.finish_row(row, encoded, dpi)
    }

    /// Generates the barcodes of rows at 300 dots per inch, each with the
    /// rooms of its texts.
    pub fn generate_barcodes(&self, barcodes: Vec<BarcodeImportRowCSV>) -> (generated: Result<
        Vec<GeneratedBarcode>,
        GenerationError,
    >)
        ensures
            match generated {
                Ok(done) => spec_bulk_generated(
                    spec_rows(barcodes@),
                    spec_rows_answers(spec_rows(barcodes@)),
                    self@,
                    DEFAULT_DPI as nat,
                ) == Ok::<Seq<BarcodeView>, GenerationError>(spec_barcodes(done@)),
                Err(error) => spec_bulk_generated(
                    spec_rows(barcodes@),
                    spec_rows_answers(spec_rows(barcodes@)),
                    self@,
                    DEFAULT_DPI as nat,
                ) == Err::<Seq<BarcodeView>, GenerationError>(error),
            },
    {
        self.generate_barcodes_with_dpi(barcodes, DEFAULT_DPI)
    }

    /// Generates the barcodes of rows at `dpi` dots per inch: one barcode
    /// for each row, in order, each with the rooms of its texts. The first
    /// row that fails makes the whole generation fail.
    pub fn generate_barcodes_with_dpi(&self, barcodes: Vec<BarcodeImportRowCSV>, dpi: u32) -> (generated: Result<
        Vec<GeneratedBarcode>,
        GenerationError,
    >)
        requires
            dpi > 0,
        ensures
            match generated {
                Ok(done) => spec_bulk_generated(
                    spec_rows(barcodes@),
                    spec_rows_answers(spec_rows(barcodes@)),
                    self@,
                    dpi as nat,
                ) == Ok::<Seq<BarcodeView>, GenerationError>(spec_barcodes(done@)),
                Err(error) => spec_bulk_generated(
                    spec_rows(barcodes@),
                    spec_rows_answers(spec_rows(barcodes@)),
                    self@,
                    dpi as nat,
                ) == Err::<Seq<BarcodeView>, GenerationError>(error),
            },
    {
        let symbols: Vec<Option<RawSymbol>> = self.encode_rows(&barcodes);
        self.finish_barcodes(barcodes, symbols, dpi)
    }

    /// Finishes the barcodes of rows at `dpi` dots per inch from the
    /// answers of the symbology encoder, one answer for each row: one
    /// barcode for each row, in order. The first row that fails makes the
    /// whole generation fail.
    pub fn finish_barcodes(
        &self,
        barcodes: Vec<BarcodeImportRowCSV>,
        symbols: Vec<Option<RawSymbol>>,
        dpi: u32,
    ) -> (generated: Result<Vec<GeneratedBarcode>, GenerationError>)
        requires
            dpi > 0,
            barcodes@.len() == symbols@.len(),
        ensures
            match generated {
                Ok(done) => spec_bulk_generated(
                    spec_rows(barcodes@),
                    spec_answers(symbols@),
                    self@,
                    dpi as nat,
                ) == Ok::<Seq<BarcodeView>, GenerationError>(spec_barcodes(done@)),
                Err(error) => spec_bulk_generated(
                    spec_rows(barcodes@),
                    spec_answers(symbols@),
                    self@,
                    dpi as nat,
                ) == Err::<Seq<BarcodeView>, GenerationError>(error),
            },
    {
        let ghost rows = spec_rows(barcodes@);
        let ghost answers = spec_answers(symbols@);
        let mut pending: Vec<Option<RawSymbol>> = symbols;
        let mut done: Vec<GeneratedBarcode> = Vec::new();
        let mut i: usize = 0;
        assert(rows.subrange(0, 0) =~= Seq::empty());
        assert(spec_barcodes(done@) =~= Seq::empty());
        while i < barcodes.len()
            invariant
                i <= barcodes.len(),
                dpi > 0,
                rows == spec_rows(barcodes@),
                answers == spec_answers(symbols@),
                pending@.len() == barcodes@.len(),
                answers.len() == barcodes@.len(),
                forall|k: int| i <= k < pending@.len() ==> spec_answer(pending@[k]) == answers[k],
                spec_bulk_generated(
                    rows.subrange(0, i as int),
                    answers.subrange(0, i as int),
                    self@,
                    dpi as nat,
                ) == Ok::<Seq<BarcodeView>, GenerationError>(spec_barcodes(done@)),
            decreases barcodes.len() - i,
        {
            let row: &BarcodeImportRowCSV = &barcodes[i];
            let ghost earlier = spec_barcodes(done@);
            proof {
                let longer = rows.subrange(0, i + 1);
                assert(longer.drop_last() =~= rows.subrange(0, i as int));
                assert(longer.last() == row@);
                let more = answers.subrange(0, i + 1);
                assert(more.drop_last() =~= answers.subrange(0, i as int));
                assert(more.last() == answers[i as int]);
            }
            let encoded: Option<RawSymbol> = pending[i].take();
            match self.finish_row(row, encoded, dpi) {
                Err(error) => {
                    proof {
                        lemma_bulk_failure(rows, answers, self@, dpi as nat, i as int + 1);
                    }
                    return Err(error);
                },
                Ok(barcode) => {
                    done.push(barcode);
                    assert(spec_barcodes(done@) =~= earlier.push(barcode@));
                },
            }
            i += 1;
        }
        assert(rows.subrange(0, i as int) =~= rows);
        assert(answers.subrange(0, i as int) =~= answers);
        Ok(done)
    }
}

/// When the first `n` rows fail, all the rows fail, and in the same way.
pub proof fn lemma_bulk_failure(
    rows: Seq<RowView>,
    symbols: Seq<Option<SymbolView>>,
    output_dir: Seq<char>,
    dpi: nat,
    n: int,
)
    requires
        rows.len() == symbols.len(),
        0 <= n <= rows.len(),
        spec_bulk_generated(rows.subrange(0, n), symbols.subrange(0, n), output_dir, dpi) is Err,
    ensures
        spec_bulk_generated(rows, symbols, output_dir, dpi) == spec_bulk_generated(
            rows.subrange(0, n),
            symbols.subrange(0, n),
            output_dir,
            dpi,
        ),
    decreases rows.len() - n,
{
    if n == rows.len() {
        assert(rows.subrange(0, n) =~= rows);
        assert(symbols.subrange(0, n) =~= symbols);
    } else {
        let longer = rows.subrange(0, n + 1);
        assert(longer.drop_last() =~= rows.subrange(0, n));
        let more = symbols.subrange(0, n + 1);
        assert(more.drop_last() =~= symbols.subrange(0, n));
        lemma_bulk_failure(rows, symbols, output_dir, dpi, n + 1);
    }
}

} // verus!
