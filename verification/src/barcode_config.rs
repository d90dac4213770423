//! What a barcode request holds: the symbology, the payload, the physical
//! size and the texts to print around the symbol.

use vstd::prelude::*;
use crate::raster::RgbWrapper;

verus! {

/// Default width of a barcode, in micrometers.
pub const DEFAULT_WIDTH_MICROMETERS: u32 = 48_500;

/// Default height of a barcode, in micrometers.
pub const DEFAULT_HEIGHT_MICROMETERS: u32 = 16_900;

/// Default module-to-pixel scale.
pub const DEFAULT_SCALE: i32 = 10;

/// Margin that the builder gives each text.
pub const DEFAULT_TEXT_MARGIN: u32 = 5;

/// Where a text stands relative to the barcode. `NoText` prints nothing.
#[derive(Clone, Copy, Debug, PartialEq, Eq, Structural)]
pub enum TextPosition {
    Upper,
    Lower,
    NoText,
    UpperCenter,
    LowerCenter,
}

/// A barcode symbology, or one of the symbology groups.
#[derive(Clone, Copy, Debug, PartialEq, Eq, Structural)]
pub enum BarcodeFormat {
    Code128,
    Code39,
    QRCode,
    EAN13,
    EAN8,
    UPCA,
    UPCE,
    DataMatrix,
    PDF417,
    Aztec,
    Codabar,
    Code93,
    DataBar,
    DataBarExpanded,
    DataBarLimited,
    ITF,
    MaxiCode,
    MicroQRCode,
    RMQRCode,
    DXFilmEdge,
    LinearCodes,
    MatrixCodes,
    Any,
    NoFormat,
}

/// The name under which a format is stored and exchanged.
pub open spec fn spec_format_name(format: BarcodeFormat) -> Seq<char> {
    match format {
        BarcodeFormat::Code128 => "Code128"@,
        BarcodeFormat::Code39 => "Code39"@,
        BarcodeFormat::QRCode => "QRCode"@,
        BarcodeFormat::EAN13 => "EAN13"@,
        BarcodeFormat::EAN8 => "EAN8"@,
        BarcodeFormat::UPCA => "UPCA"@,
        BarcodeFormat::UPCE => "UPCE"@,
        BarcodeFormat::DataMatrix => "DataMatrix"@,
        BarcodeFormat::PDF417 => "PDF417"@,
        BarcodeFormat::Aztec => "Aztec"@,
        BarcodeFormat::Codabar => "Codabar"@,
        BarcodeFormat::Code93 => "Code93"@,
        BarcodeFormat::DataBar => "DataBar"@,
        BarcodeFormat::DataBarExpanded => "DataBarExpanded"@,
        BarcodeFormat::DataBarLimited => "DataBarLimited"@,
        BarcodeFormat::ITF => "ITF"@,
        BarcodeFormat::MaxiCode => "MaxiCode"@,
        BarcodeFormat::MicroQRCode => "MicroQRCode"@,
        BarcodeFormat::RMQRCode => "RMQRCode"@,
        BarcodeFormat::DXFilmEdge => "DXFilmEdge"@,
        BarcodeFormat::LinearCodes => "LinearCodes"@,
        BarcodeFormat::MatrixCodes => "MatrixCodes"@,
        BarcodeFormat::Any => "Any"@,
        BarcodeFormat::NoFormat => "None"@,
    }
}

/// The name by which the symbology encoder knows a format.
pub open spec fn spec_encoder_name(format: BarcodeFormat) -> Seq<char> {
    match format {
        BarcodeFormat::DataBarExpanded => "DataBarExp"@,
        BarcodeFormat::DataBarLimited => "DataBarLtd"@,
        BarcodeFormat::LinearCodes => "AllLinear"@,
        BarcodeFormat::MatrixCodes => "AllMatrix"@,
        BarcodeFormat::Any => "All"@,
        _ => spec_format_name(format),
    }
}

/// The format of the `index`-th row of the name table.
pub open spec fn spec_format_at(index: int) -> BarcodeFormat {
    if index == 0 {
        BarcodeFormat::Code128
    } else if index == 1 {
        BarcodeFormat::Code39
    } else if index == 2 {
        BarcodeFormat::QRCode
    } else if index == 3 {
        BarcodeFormat::EAN13
    } else if index == 4 {
        BarcodeFormat::EAN8
    } else if index == 5 {
        BarcodeFormat::UPCA
    } else if index == 6 {
        BarcodeFormat::UPCE
    } else if index == 7 {
        BarcodeFormat::DataMatrix
    } else if index == 8 {
        BarcodeFormat::PDF417
    } else if index == 9 {
        BarcodeFormat::Aztec
    } else if index == 10 {
        BarcodeFormat::Codabar
    } else if index == 11 {
        BarcodeFormat::Code93
    } else if index == 12 {
        BarcodeFormat::DataBar
    } else if index == 13 {
        BarcodeFormat::DataBarExpanded
    } else if index == 14 {
        BarcodeFormat::DataBarLimited
    } else if index == 15 {
        BarcodeFormat::ITF
    } else if index == 16 {
        BarcodeFormat::MaxiCode
    } else if index == 17 {
        BarcodeFormat::MicroQRCode
    } else if index == 18 {
        BarcodeFormat::RMQRCode
    } else if index == 19 {
        BarcodeFormat::DXFilmEdge
    } else if index == 20 {
        BarcodeFormat::LinearCodes
    } else if index == 21 {
        BarcodeFormat::MatrixCodes
    } else if index == 22 {
        BarcodeFormat::Any
    } else {
        BarcodeFormat::NoFormat
    }
}

/// Number of rows of the name table.
pub const FORMAT_COUNT: usize = 24;

/// Whether some format is stored under `name`.
pub open spec fn is_format_name(name: Seq<char>) -> bool {
    exists|index: int| 0 <= index < FORMAT_COUNT && spec_format_name(spec_format_at(index)) == name
}

/// The format stored under `name`; a name that the table does not hold
/// stands for Code 128.
pub open spec fn spec_format_from_name(name: Seq<char>) -> BarcodeFormat {
    if is_format_name(name) {
        spec_format_at(
            choose|index: int|
                0 <= index < FORMAT_COUNT && spec_format_name(spec_format_at(index)) == name,
        )
    } else {
        BarcodeFormat::Code128
    }
}

impl BarcodeFormat {
    /// The format of the `index`-th row of the name table.
    pub fn at(index: usize) -> (format: BarcodeFormat)
        ensures
            format == spec_format_at(index as int),
    {
        if index == 0 {
            BarcodeFormat::Code128
        } else if index == 1 {
            BarcodeFormat::Code39
        } else if index == 2 {
            BarcodeFormat::QRCode
        } else if index == 3 {
            BarcodeFormat::EAN13
        } else if index == 4 {
            BarcodeFormat::EAN8
        } else if index == 5 {
            BarcodeFormat::UPCA
        } else if index == 6 {
            BarcodeFormat::UPCE
        } else if index == 7 {
            BarcodeFormat::DataMatrix
        } else if index == 8 {
            BarcodeFormat::PDF417
        } else if index == 9 {
            BarcodeFormat::Aztec
        } else if index == 10 {
            BarcodeFormat::Codabar
        } else if index == 11 {
            BarcodeFormat::Code93
        } else if index == 12 {
            BarcodeFormat::DataBar
        } else if index == 13 {
            BarcodeFormat::DataBarExpanded
        } else if index == 14 {
            BarcodeFormat::DataBarLimited
        } else if index == 15 {
            BarcodeFormat::ITF
        } else if index == 16 {
            BarcodeFormat::MaxiCode
        } else if index == 17 {
            BarcodeFormat::MicroQRCode
        } else if index == 18 {
            BarcodeFormat::RMQRCode
        } else if index == 19 {
            BarcodeFormat::DXFilmEdge
        } else if index == 20 {
            BarcodeFormat::LinearCodes
        } else if index == 21 {
            BarcodeFormat::MatrixCodes
        } else if index == 22 {
            BarcodeFormat::Any
        } else {
            BarcodeFormat::NoFormat
        }
    }

    /// The name under which this format is stored and exchanged.
    pub fn name(self) -> (name: &'static str)
        ensures
            name@ == spec_format_name(self),
    {
        match self {
            BarcodeFormat::Code128 => "Code128",
            BarcodeFormat::Code39 => "Code39",
            BarcodeFormat::QRCode => "QRCode",
            BarcodeFormat::EAN13 => "EAN13",
            BarcodeFormat::EAN8 => "EAN8",
            BarcodeFormat::UPCA => "UPCA",
            BarcodeFormat::UPCE => "UPCE",
            BarcodeFormat::DataMatrix => "DataMatrix",
            BarcodeFormat::PDF417 => "PDF417",
            BarcodeFormat::Aztec => "Aztec",
            BarcodeFormat::Codabar => "Codabar",
            BarcodeFormat::Code93 => "Code93",
            BarcodeFormat::DataBar => "DataBar",
            BarcodeFormat::DataBarExpanded => "DataBarExpanded",
            BarcodeFormat::DataBarLimited => "DataBarLimited",
            BarcodeFormat::ITF => "ITF",
            BarcodeFormat::MaxiCode => "MaxiCode",
            BarcodeFormat::MicroQRCode => "MicroQRCode",
            BarcodeFormat::RMQRCode => "RMQRCode",
            BarcodeFormat::DXFilmEdge => "DXFilmEdge",
            BarcodeFormat::LinearCodes => "LinearCodes",
            BarcodeFormat::MatrixCodes => "MatrixCodes",
            BarcodeFormat::Any => "Any",
            BarcodeFormat::NoFormat => "None",
        }
    }

    /// The name by which the symbology encoder knows this format.
    pub fn encoder_name(self) -> (name: &'static str)
        ensures
            name@ == spec_encoder_name(self),
    {
        match self {
            BarcodeFormat::DataBarExpanded => "DataBarExp",
            BarcodeFormat::DataBarLimited => "DataBarLtd",
            BarcodeFormat::LinearCodes => "AllLinear",
            BarcodeFormat::MatrixCodes => "AllMatrix",
            BarcodeFormat::Any => "All",
            _ => self.name(),
        }
    }

    /// The format stored under `name`; a name that the table does not hold
    /// stands for Code 128.
    pub fn from_name(name: &str) -> (format: BarcodeFormat)
        ensures
            format == spec_format_from_name(name@),
    {
        let wanted: String = name.to_owned();
        let mut index: usize = 0;
        while index < FORMAT_COUNT
            invariant
                index <= FORMAT_COUNT,
                wanted@ == name@,
                forall|k: int|
                    0 <= k < index ==> spec_format_name(#[trigger] spec_format_at(k)) != name@,
            decreases FORMAT_COUNT - index,
        {
            let candidate: BarcodeFormat = BarcodeFormat::at(index);
            let stored: String = candidate.name().to_owned();
            if stored == wanted {
                proof {
                    lemma_format_names_differ();
                    let chosen = choose|i: int|
                        0 <= i < FORMAT_COUNT && spec_format_name(spec_format_at(i)) == name@;
                    assert(spec_format_at(chosen) == candidate);
                }
                return candidate;
            }
            index += 1;
        }
        BarcodeFormat::Code128
    }
}

/// No two formats share a name.
pub proof fn lemma_format_names_differ()
    ensures
        forall|a: BarcodeFormat, b: BarcodeFormat|
            spec_format_name(a) == spec_format_name(b) ==> a == b,
{
    reveal_strlit("Code128");
    reveal_strlit("Code39");
    reveal_strlit("QRCode");
    reveal_strlit("EAN13");
    reveal_strlit("EAN8");
    reveal_strlit("UPCA");
    reveal_strlit("UPCE");
    reveal_strlit("DataMatrix");
    reveal_strlit("PDF417");
    reveal_strlit("Aztec");
    reveal_strlit("Codabar");
    reveal_strlit("Code93");
    reveal_strlit("DataBar");
    reveal_strlit("DataBarExpanded");
    reveal_strlit("DataBarLimited");
    reveal_strlit("ITF");
    reveal_strlit("MaxiCode");
    reveal_strlit("MicroQRCode");
    reveal_strlit("RMQRCode");
    reveal_strlit("DXFilmEdge");
    reveal_strlit("LinearCodes");
    reveal_strlit("MatrixCodes");
    reveal_strlit("Any");
    reveal_strlit("None");
    assert forall|a: BarcodeFormat, b: BarcodeFormat|
        spec_format_name(a) == spec_format_name(b) implies a == b by {
        let x = spec_format_name(a);
        let y = spec_format_name(b);
        if a != b {
            if x.len() == y.len() {
                assert(x[0] != y[0] || x[1] != y[1] || x[2] != y[2] || x[3] != y[3] || x[x.len()
                    - 1] != y[y.len() - 1] || x[x.len() - 2] != y[y.len() - 2]);
            }
        }
    }
}

/// Every format is a row of the name table.
pub proof fn lemma_format_in_table(format: BarcodeFormat)
    ensures
        exists|index: int| 0 <= index < FORMAT_COUNT && spec_format_at(index) == format,
{
    let index: int = match format {
        BarcodeFormat::Code128 => 0,
        BarcodeFormat::Code39 => 1,
        BarcodeFormat::QRCode => 2,
        BarcodeFormat::EAN13 => 3,
        BarcodeFormat::EAN8 => 4,
        BarcodeFormat::UPCA => 5,
        BarcodeFormat::UPCE => 6,
        BarcodeFormat::DataMatrix => 7,
        BarcodeFormat::PDF417 => 8,
        BarcodeFormat::Aztec => 9,
        BarcodeFormat::Codabar => 10,
        BarcodeFormat::Code93 => 11,
        BarcodeFormat::DataBar => 12,
        BarcodeFormat::DataBarExpanded => 13,
        BarcodeFormat::DataBarLimited => 14,
        BarcodeFormat::ITF => 15,
        BarcodeFormat::MaxiCode => 16,
        BarcodeFormat::MicroQRCode => 17,
        BarcodeFormat::RMQRCode => 18,
        BarcodeFormat::DXFilmEdge => 19,
        BarcodeFormat::LinearCodes => 20,
        BarcodeFormat::MatrixCodes => 21,
        BarcodeFormat::Any => 22,
        BarcodeFormat::NoFormat => 23,
    };
    assert(0 <= index < FORMAT_COUNT && spec_format_at(index) == format);
}

/// A format is found again under its own name.
pub proof fn lemma_format_name_round_trip(format: BarcodeFormat)
    ensures
        spec_format_from_name(spec_format_name(format)) == format,
{
    lemma_format_in_table(format);
    lemma_format_names_differ();
    let name = spec_format_name(format);
    let index = choose|index: int| 0 <= index < FORMAT_COUNT && spec_format_at(index) == format;
    assert(0 <= index < FORMAT_COUNT && spec_format_name(spec_format_at(index)) == name);
}

/// A format under its stored name.
#[derive(Debug)]
pub struct BarcodeFormatWrapper {
    pub format: String,
}

impl Clone for BarcodeFormatWrapper {
    fn clone(&self) -> (copy: Self)
        ensures
            copy.format@ == self.format@,
    {
        BarcodeFormatWrapper { format: self.format.clone() }
    }
}

impl BarcodeFormatWrapper {
    /// The wrapper that stores `format` under its name.
    pub fn from_format(format: BarcodeFormat) -> (wrapper: Self)
        ensures
            wrapper.format@ == spec_format_name(format),
    {
        BarcodeFormatWrapper { format: format.name().to_owned() }
    }

    /// The format that the stored name stands for; a name that the table
    /// does not hold stands for Code 128.
    pub fn to_format(&self) -> (format: BarcodeFormat)
        ensures
            format == spec_format_from_name(self.format@),
    {
        BarcodeFormat::from_name(self.format.as_str())
    }
}

/// Physical size of a barcode, in micrometers, and the two percentages by
/// which its pixels are scaled afterwards. 100 percent changes nothing.
#[derive(Clone, Copy, Debug, PartialEq, Eq, Structural)]
pub struct BarcodeDimensions {
    pub height_percentage: u32,
    pub width_percentage: u32,
    pub width_micrometers: u32,
    pub height_micrometers: u32,
}

impl BarcodeDimensions {
    /// The default size, with both percentages at 100.
    pub fn new() -> (dimensions: Self)
        ensures
            dimensions == (BarcodeDimensions {
                height_percentage: 100,
                width_percentage: 100,
                width_micrometers: DEFAULT_WIDTH_MICROMETERS,
                height_micrometers: DEFAULT_HEIGHT_MICROMETERS,
            }),
    {
        BarcodeDimensions {
            height_percentage: 100,
            width_percentage: 100,
            width_micrometers: DEFAULT_WIDTH_MICROMETERS,
            height_micrometers: DEFAULT_HEIGHT_MICROMETERS,
        }
    }

    /// These dimensions with the height set to `height` micrometers.
    pub fn resize_height_mm(&self, height: u32) -> (dimensions: Self)
        ensures
            dimensions == (BarcodeDimensions { height_micrometers: height, ..*self }),
    {
        BarcodeDimensions { height_micrometers: height, ..*self }
    }

    /// These dimensions with the width set to `width` micrometers.
    pub fn resize_width_mm(&self, width: u32) -> (dimensions: Self)
        ensures
            dimensions == (BarcodeDimensions { width_micrometers: width, ..*self }),
    {
        BarcodeDimensions { width_micrometers: width, ..*self }
    }

    /// These dimensions with the height percentage set to `percentage`.
    pub fn resize_height_percentage(&self, percentage: u32) -> (dimensions: Self)
        ensures
            dimensions == (BarcodeDimensions { height_percentage: percentage, ..*self }),
    {
        BarcodeDimensions { height_percentage: percentage, ..*self }
    }

    /// These dimensions with the width percentage set to `percentage`.
    pub fn resize_width_percentage(&self, percentage: u32) -> (dimensions: Self)
        ensures
            dimensions == (BarcodeDimensions { width_percentage: percentage, ..*self }),
    {
        BarcodeDimensions { width_percentage: percentage, ..*self }
    }
}

/// The mathematical content of a text style.
pub struct TextStyle {
    pub text: Seq<char>,
    pub text_color: RgbWrapper,
    pub text_size: u32,
    pub text_position: TextPosition,
    pub font: Seq<char>,
    pub margin: u32,
}

/// One text to print beside the barcode: the text, its color, its size in
/// pixels, its font by name, its margin and where it stands.
#[derive(Debug)]
pub struct BarcodeTextStyleConfig {
    pub text: String,
    pub text_color: RgbWrapper,
    pub text_size: u32,
    pub text_position: TextPosition,
    pub font: String,
    pub margin: u32,
}

/// A text style as the generator takes it.
pub type BarcodeTextStyleConfigInternal = BarcodeTextStyleConfig;

impl View for BarcodeTextStyleConfig {
    type V = TextStyle;

    open spec fn view(&self) -> TextStyle {
        TextStyle {
            text: self.text@,
            text_color: self.text_color,
            text_size: self.text_size,
            text_position: self.text_position,
            font: self.font@,
            margin: self.margin,
        }
    }
}

impl Clone for BarcodeTextStyleConfig {
    fn clone(&self) -> (copy: Self)
        ensures
            copy@ == self@,
    {
        BarcodeTextStyleConfig {
            text: self.text.clone(),
            text_color: self.text_color,
            text_size: self.text_size,
            text_position: self.text_position,
            font: self.font.clone(),
            margin: self.margin,
        }
    }
}

/// The mathematical content of a list of text styles.
pub open spec fn spec_styles(texts: Seq<BarcodeTextStyleConfig>) -> Seq<TextStyle> {
    texts.map_values(|style: BarcodeTextStyleConfig| style@)
}

/// A copy of a list of text styles.
pub fn clone_texts(texts: &Vec<BarcodeTextStyleConfig>) -> (copy: Vec<BarcodeTextStyleConfig>)
    ensures
        spec_styles(copy@) == spec_styles(texts@),
{
    let mut copy: Vec<BarcodeTextStyleConfig> = Vec::new();
    let mut i: usize = 0;
    while i < texts.len()
        invariant
            i <= texts.len(),
            copy@.len() == i,
            forall|k: int| 0 <= k < i ==> copy@[k]@ == texts@[k]@,
        decreases texts.len() - i,
    {
        copy.push(texts[i].clone());
        i += 1;
    }
    assert(spec_styles(copy@) =~= spec_styles(texts@));
    copy
}

/// The mathematical content of a barcode request.
pub struct ConfigView {
    pub format: Seq<char>,
    pub texts: Seq<TextStyle>,
    pub scale: i32,
    pub quiet_zones: bool,
    pub dimensions: BarcodeDimensions,
    pub data: Seq<char>,
}

/// A barcode request as it is stored and exchanged: the format by name.
#[derive(Debug)]
pub struct BarcodeConfig {
    pub format: BarcodeFormatWrapper,
    pub texts: Vec<BarcodeTextStyleConfig>,
    pub scale: i32,
    pub quiet_zones: bool,
    pub dimensions: BarcodeDimensions,
    pub data: String,
}

impl View for BarcodeConfig {
    type V = ConfigView;

    open spec fn view(&self) -> ConfigView {
        ConfigView {
            format: self.format.format@,
            texts: spec_styles(self.texts@),
            scale: self.scale,
            quiet_zones: self.quiet_zones,
            dimensions: self.dimensions,
            data: self.data@,
        }
    }
}

impl Clone for BarcodeConfig {
    fn clone(&self) -> (copy: Self)
        ensures
            copy@ == self@,
    {
        BarcodeConfig {
            format: self.format.clone(),
            texts: clone_texts(&self.texts),
            scale: self.scale,
            quiet_zones: self.quiet_zones,
            dimensions: self.dimensions,
            data: self.data.clone(),
        }
    }
}

/// The mathematical content of a barcode request with its format resolved.
pub struct InternalConfigView {
    pub format: BarcodeFormat,
    pub texts: Seq<TextStyle>,
    pub scale: i32,
    pub quiet_zones: bool,
    pub dimensions: BarcodeDimensions,
    pub data: Seq<char>,
}

/// A barcode request as the generator takes it: the format resolved.
#[derive(Debug)]
pub struct BarcodeConfigInternal {
    pub format: BarcodeFormat,
    pub texts: Vec<BarcodeTextStyleConfigInternal>,
    pub scale: i32,
    pub quiet_zones: bool,
    pub dimensions: BarcodeDimensions,
    pub data: String,
}

impl View for BarcodeConfigInternal {
    type V = InternalConfigView;

    open spec fn view(&self) -> InternalConfigView {
        InternalConfigView {
            format: self.format,
            texts: spec_styles(self.texts@),
            scale: self.scale,
            quiet_zones: self.quiet_zones,
            dimensions: self.dimensions,
            data: self.data@,
        }
    }
}

impl Clone for BarcodeConfigInternal {
    fn clone(&self) -> (copy: Self)
        ensures
            copy@ == self@,
    {
        BarcodeConfigInternal {
            format: self.format,
            texts: clone_texts(&self.texts),
            scale: self.scale,
            quiet_zones: self.quiet_zones,
            dimensions: self.dimensions,
            data: self.data.clone(),
        }
    }
}

/// A stored request with its format resolved; everything else stays.
pub open spec fn spec_resolved(config: ConfigView) -> InternalConfigView {
    InternalConfigView {
        format: spec_format_from_name(config.format),
        texts: config.texts,
        scale: config.scale,
        quiet_zones: config.quiet_zones,
        dimensions: config.dimensions,
        data: config.data,
    }
}

impl BarcodeConfigInternal {
    /// Resolves the format of a stored request; everything else stays.
    pub fn from_config(config: BarcodeConfig) -> (internal: Self)
        ensures
            internal@ == spec_resolved(config@),
    {
        let format: BarcodeFormat = config.format.to_format();
        BarcodeConfigInternal {
            format,
            texts: config.texts,
            scale: config.scale,
            quiet_zones: config.quiet_zones,
            dimensions: config.dimensions,
            data: config.data,
        }
    }
}

/// The request that a new builder holds: Code 128, no text, scale 10,
/// quiet zones, the default dimensions and no payload.
pub open spec fn spec_default_config() -> ConfigView {
    ConfigView {
        format: spec_format_name(BarcodeFormat::Code128),
        texts: Seq::empty(),
        scale: DEFAULT_SCALE,
        quiet_zones: true,
        dimensions: BarcodeDimensions {
            height_percentage: 100,
            width_percentage: 100,
            width_micrometers: DEFAULT_WIDTH_MICROMETERS,
            height_micrometers: DEFAULT_HEIGHT_MICROMETERS,
        },
        data: Seq::empty(),
    }
}

/// The style that the builder gives a text: the font "DejaVuSans" and a
/// margin of 5.
pub open spec fn spec_built_style(
    text: Seq<char>,
    text_color: RgbWrapper,
    text_size: u32,
    text_position: TextPosition,
) -> TextStyle {
    TextStyle {
        text,
        text_color,
        text_size,
        text_position,
        font: "DejaVuSans"@,
        margin: DEFAULT_TEXT_MARGIN,
    }
}

/// Builds a barcode request step by step. Each step leaves the builder as
/// it was and returns a new one.
#[derive(Debug)]
pub struct BarcodeConfigBuilder {
    config: BarcodeConfig,
}

impl View for BarcodeConfigBuilder {
    type V = ConfigView;

    closed spec fn view(&self) -> ConfigView {
        self.config@
    }
}

impl BarcodeConfigBuilder {
    /// A builder that holds the default request.
    pub fn new() -> (builder: Self)
        ensures
            builder@ == spec_default_config(),
    {
        BarcodeConfigBuilder { config: Self::default_config() }
    }

    fn default_config() -> (config: BarcodeConfig)
        ensures
            config@ == spec_default_config(),
    {
        let config = BarcodeConfig {
            format: BarcodeFormatWrapper::from_format(BarcodeFormat::Code128),
            texts: Vec::new(),
            scale: DEFAULT_SCALE,
            quiet_zones: true,
            dimensions: BarcodeDimensions::new(),
            data: String::new(),
        };
        assert(config@.texts =~= Seq::empty());
        config
    }

    /// A builder whose request has `format`.
    pub fn set_format(&self, format: BarcodeFormat) -> (builder: Self)
        ensures
            builder@ == (ConfigView { format: spec_format_name(format), ..self@ }),
    {
        let mut config = self.config.clone();
        config.format = BarcodeFormatWrapper::from_format(format);
        BarcodeConfigBuilder { config }
    }

    /// A builder whose request has `scale`.
    pub fn set_scale(&self, scale: i32) -> (builder: Self)
        ensures
            builder@ == (ConfigView { scale, ..self@ }),
    {
        let mut config = self.config.clone();
        config.scale = scale;
        BarcodeConfigBuilder { config }
    }

    /// A builder whose request has one more text, after those it had, in
    /// the font "DejaVuSans" and with a margin of 5.
    pub fn add_text(
        &self,
        text: &str,
        text_color: RgbWrapper,
        text_size: u32,
        text_position: TextPosition,
    ) -> (builder: Self)
        ensures
            builder@ == (ConfigView {
                texts: self@.texts.push(
                    spec_built_style(text@, text_color, text_size, text_position),
                ),
                ..self@
            }),
    {
        let mut config = self.config.clone();
        let ghost before = config.texts@;
        config.texts.push(
            BarcodeTextStyleConfig {
                text: text.to_owned(),
                text_color,
                text_size,
                text_position,
                font: "DejaVuSans".to_owned(),
                margin: DEFAULT_TEXT_MARGIN,
            },
        );
        assert(spec_styles(config.texts@) =~= spec_styles(before).push(
            spec_built_style(text@, text_color, text_size, text_position),
        ));
        BarcodeConfigBuilder { config }
    }

    /// A builder whose request has its height percentage set.
    pub fn resize_height_percentage(&self, percentage: u32) -> (builder: Self)
        ensures
            builder@ == (ConfigView {
                dimensions: BarcodeDimensions {
                    height_percentage: percentage,
                    ..self@.dimensions
                },
                ..self@
            }),
    {
        let mut config = self.config.clone();
        config.dimensions = config.dimensions.resize_height_percentage(percentage);
        BarcodeConfigBuilder { config }
    }

    /// A builder whose request has its width percentage set.
    pub fn resize_width_percentage(&self, percentage: u32) -> (builder: Self)
        ensures
            builder@ == (ConfigView {
                dimensions: BarcodeDimensions {
                    width_percentage: percentage,
                    ..self@.dimensions
                },
                ..self@
            }),
    {
        let mut config = self.config.clone();
        config.dimensions = config.dimensions.resize_width_percentage(percentage);
        BarcodeConfigBuilder { config }
    }

    /// The request that was built.
    pub fn build(&self) -> (config: BarcodeConfig)
        ensures
            config@ == self@,
    {
        self.config.clone()
    }
}

impl From<BarcodeFormatWrapper> for BarcodeFormat {
    /// The format that the stored name stands for.
    fn from(wrapper: BarcodeFormatWrapper) -> (format: BarcodeFormat) {
        wrapper.to_format()
    }
}

impl vstd::std_specs::convert::FromSpecImpl<BarcodeFormatWrapper> for BarcodeFormat {
    open spec fn obeys_from_spec() -> bool {
        true
    }

    open spec fn from_spec(wrapper: BarcodeFormatWrapper) -> BarcodeFormat {
        spec_format_from_name(wrapper.format@)
    }
}

impl From<BarcodeFormat> for BarcodeFormatWrapper {
    /// The wrapper that stores `format` under its name.
    fn from(format: BarcodeFormat) -> (wrapper: BarcodeFormatWrapper)
        ensures
            wrapper.format@ == spec_format_name(format),
    {
        BarcodeFormatWrapper::from_format(format)
    }
}

impl vstd::std_specs::convert::FromSpecImpl<BarcodeFormat> for BarcodeFormatWrapper {
    open spec fn obeys_from_spec() -> bool {
        false
    }

    open spec fn from_spec(format: BarcodeFormat) -> BarcodeFormatWrapper {
        arbitrary()
    }
}

impl vstd::std_specs::convert::FromSpecImpl<BarcodeConfig> for BarcodeConfigInternal {
    open spec fn obeys_from_spec() -> bool {
        false
    }

    open spec fn from_spec(config: BarcodeConfig) -> BarcodeConfigInternal {
        arbitrary()
    }
}

impl From<BarcodeConfig> for BarcodeConfigInternal {
    /// Resolves the format of a stored request; everything else stays.
    fn from(config: BarcodeConfig) -> (internal: BarcodeConfigInternal)
        ensures
            internal@ == spec_resolved(config@),
    {
        BarcodeConfigInternal::from_config(config)
    }
}

} // verus!
