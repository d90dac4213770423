//! Barcode generation: what the symbology encoder is asked for, sizing the
//! symbol that it gives and making room for the texts around it.

use vstd::prelude::*;
use crate::barcode_config::spec_encoder_name;
use crate::barcode_config::spec_styles;
use crate::barcode_config::BarcodeConfigInternal;
use crate::barcode_config::BarcodeDimensions;
use crate::barcode_config::BarcodeFormat;
use crate::barcode_config::BarcodeTextStyleConfig;
use crate::barcode_config::TextPosition;
use crate::barcode_config::TextStyle;
use crate::calculator::rounded_quotient;
use crate::calculator::saturate_u32;
use crate::calculator::spec_mm_to_px;
use crate::calculator::spec_px_to_mm;
use crate::calculator::DimensionCalculator;
use crate::calculator::MICROMETERS_PER_INCH;
use crate::image_editor::scaled;
use crate::image_editor::spec_resize_height_percentage;
use crate::image_editor::spec_resize_width_percentage;
use crate::image_editor::DEFAULT_DPI;
use crate::raster::covered;
use crate::raster::fits_memory;
use crate::raster::lemma_grid_index_bound;
use crate::raster::lemma_index_in_grid;
use crate::raster::lemma_position_of_index;
use crate::raster::size_fits_memory;
use crate::raster::spec_filled;
use crate::raster::spec_gray_to_rgb;
use crate::raster::spec_paste;
use crate::raster::spec_resized;
use crate::raster::Bitmap;
use crate::raster::Raster;
use crate::raster::RgbWrapper;
use crate::validator::spec_validation_error;
use crate::validator::validate_payload;
use crate::validator::EncodingError;

verus! {

/// The mathematical content of a generated barcode.
pub struct BarcodeView {
    pub file_path: Seq<char>,
    pub value: Seq<char>,
    pub buffer: Raster<u8>,
}

/// A generated barcode: its gray pixels, the payload it encodes and the
/// file it was or will be written to.
#[derive(Debug)]
pub struct GeneratedBarcode {
    pub file_path: String,
    pub value: String,
    pub buffer: Bitmap<u8>,
}

impl View for GeneratedBarcode {
    type V = BarcodeView;

    open spec fn view(&self) -> BarcodeView {
        BarcodeView { file_path: self.file_path@, value: self.value@, buffer: self.buffer@ }
    }
}

impl Clone for GeneratedBarcode {
    fn clone(&self) -> (copy: Self)
        ensures
            copy@ == self@,
    {
        GeneratedBarcode {
            file_path: self.file_path.clone(),
            value: self.value.clone(),
            buffer: self.buffer.duplicate(),
        }
    }
}

/// The mathematical content of a list of generated barcodes.
pub open spec fn spec_barcodes(barcodes: Seq<GeneratedBarcode>) -> Seq<BarcodeView> {
    barcodes.map_values(|barcode: GeneratedBarcode| barcode@)
}

/// Least height of a barcode after room is taken for its texts, in
/// micrometers.
pub const MIN_HEIGHT_MICROMETERS: u32 = 1_000;

/// Pixels that a line of text takes beyond the size of its font.
pub const TEXT_PADDING: u32 = 10;

/// Column at which a text that is not centered starts.
pub const TEXT_LEFT: u32 = 10;

/// Rows between the upper edge of the room for a text and the text.
pub const TEXT_TOP: u32 = 5;

/// Module-to-pixel scale of a symbol drawn as SVG.
pub const SVG_SCALE: i32 = 5;

/// Why a barcode could not be generated.
#[derive(Clone, Copy, Debug, PartialEq, Eq, Structural)]
pub enum GenerationError {
    /// The payload breaks a rule of its format, or the encoder refused it.
    Encoding(EncodingError),
    /// A picture on the way would not fit in memory.
    ImageTooLarge,
    /// The PNG encoder refused the picture.
    PngEncoding,
}

/// The mathematical content of an encoded symbol.
pub struct SymbolView {
    pub width: int,
    pub height: int,
    pub pixels: Seq<u8>,
}

/// A symbol as the encoder hands it out: a size and one gray byte for each
/// pixel.
#[derive(Debug)]
pub struct RawSymbol {
    pub width: i32,
    pub height: i32,
    pub pixels: Vec<u8>,
}

impl View for RawSymbol {
    type V = SymbolView;

    open spec fn view(&self) -> SymbolView {
        SymbolView { width: self.width as int, height: self.height as int, pixels: self.pixels@ }
    }
}

/// Whether a symbol has a size, one pixel for each position and fits in
/// memory.
pub open spec fn spec_symbol_wf(symbol: SymbolView) -> bool {
    &&& 0 <= symbol.width
    &&& 0 <= symbol.height
    &&& symbol.pixels.len() == symbol.width * symbol.height
    &&& fits_memory(symbol.width as nat, symbol.height as nat)
}

/// A symbol as a raster.
pub open spec fn spec_symbol_raster(symbol: SymbolView) -> Raster<u8> {
    Raster { width: symbol.width as nat, height: symbol.height as nat, pixels: symbol.pixels }
}

/// The bitmap of a symbol, or nothing when its pixels do not match its
/// size.
pub fn symbol_bitmap(symbol: RawSymbol) -> (bitmap: Option<Bitmap<u8>>)
    ensures
        bitmap is Some <==> spec_symbol_wf(symbol@),
        bitmap is Some ==> bitmap->0@ == spec_symbol_raster(symbol@),
{
    if symbol.width < 0 || symbol.height < 0 {
        return None;
    }
    Bitmap::from_pixels(symbol.width as u32, symbol.height as u32, symbol.pixels)
}

/// What the symbology encoder is asked for.
pub struct RequestView {
    pub format_name: Seq<char>,
    pub payload: Seq<char>,
    pub scale: i32,
    pub quiet_zones: bool,
}

/// What the symbology encoder is asked for: the format under the name by
/// which the encoder knows it, the payload, the module-to-pixel scale and
/// whether the symbol gets quiet zones.
#[derive(Debug)]
pub struct EncodeRequest {
    pub format_name: String,
    pub payload: String,
    pub scale: i32,
    pub quiet_zones: bool,
}

impl View for EncodeRequest {
    type V = RequestView;

    open spec fn view(&self) -> RequestView {
        RequestView {
            format_name: self.format_name@,
            payload: self.payload@,
            scale: self.scale,
            quiet_zones: self.quiet_zones,
        }
    }
}

/// What the symbology encoder is asked for, or the rule that the payload
/// breaks.
pub open spec fn spec_encode_request(format: BarcodeFormat, payload: Seq<char>, scale: i32, quiet_zones: bool) -> Result<
    RequestView,
    GenerationError,
> {
    match spec_validation_error(format, payload) {
        Some(error) => Err(GenerationError::Encoding(error)),
        None => Ok(
            RequestView { format_name: spec_encoder_name(format), payload, scale, quiet_zones },
        ),
    }
}

/// What is made of the answer of the symbology encoder: the rule that the
/// payload breaks, or the refusal of the encoder, or the symbol as a
/// raster.
pub open spec fn spec_accepted(format: BarcodeFormat, payload: Seq<char>, encoded: Option<SymbolView>) -> Result<
    Raster<u8>,
    GenerationError,
> {
    match spec_validation_error(format, payload) {
        Some(error) => Err(GenerationError::Encoding(error)),
        None => match encoded {
            None => Err(GenerationError::Encoding(EncodingError::Rejected)),
            Some(symbol) => if spec_symbol_wf(symbol) {
                Ok(spec_symbol_raster(symbol))
            } else {
                Err(GenerationError::Encoding(EncodingError::MalformedSymbol))
            },
        },
    }
}

/// The mathematical content of the answer of the symbology encoder.
pub open spec fn spec_answer(encoded: Option<RawSymbol>) -> Option<SymbolView> {
    match encoded {
        Some(symbol) => Some(symbol@),
        None => None,
    }
}

/// The symbol that the symbology encoder draws for a payload in the format
/// of the given name, at a module-to-pixel scale, with or without quiet
/// zones; nothing when it refuses the format or the payload.
pub uninterp spec fn symbol_encoded(
    format_name: Seq<char>,
    payload: Seq<char>,
    scale: int,
    quiet_zones: bool,
) -> Option<SymbolView>;

/// The SVG text that the symbology encoder draws for a payload in the
/// format of the given name at a module-to-pixel scale; nothing when it
/// refuses the format or the payload.
pub uninterp spec fn svg_encoded(format_name: Seq<char>, payload: Seq<char>, scale: int) -> Option<
    Seq<char>,
>;

/// Calls the `zxingcpp` crate: `BarcodeFormat::from_str` on the name,
/// `create(..).from_str(..)` on the payload and `Barcode::to_image_with`
/// with the quiet zones and the scale set. The contract claims that the
/// symbol, or that one of the calls fails, is determined by the format
/// name, the payload, the scale and the quiet zones.
#[verifier::external_body]
fn encode_symbol(request: &EncodeRequest) -> (encoded: Option<RawSymbol>)
    ensures
        spec_answer(encoded) == symbol_encoded(
            request@.format_name,
            request@.payload,
            request@.scale as int,
            request@.quiet_zones,
        ),
{
    let name = request.format_name.as_str();
    let format = <zxingcpp::BarcodeFormat as zxingcpp::FromStr>::from_str(name).ok()?;
    let options = zxingcpp::write().add_quiet_zones(request.quiet_zones).scale(request.scale);
    let barcode = zxingcpp::create(format).from_str(request.payload.as_str()).ok()?;
    let image = barcode.to_image_with(&options).ok()?;
    Some(RawSymbol { width: image.width(), height: image.height(), pixels: image.data() })
}

/// Calls the `zxingcpp` crate: `BarcodeFormat::from_str` on the name,
/// `create(..).from_str(..)` on the payload and `Barcode::to_svg_with` with
/// the scale set. The contract claims that the text, or that one of the
/// calls fails, is determined by the format name, the payload and the
/// scale.
#[verifier::external_body]
fn encode_svg(request: &EncodeRequest, scale: i32) -> (encoded: Option<String>)
    ensures
        svg_encoded(request@.format_name, request@.payload, scale as int) == match encoded {
            Some(svg) => Some(svg@),
            None => None,
        },
{
    let name = request.format_name.as_str();
    let format = <zxingcpp::BarcodeFormat as zxingcpp::FromStr>::from_str(name).ok()?;
    let options = zxingcpp::write().scale(scale);
    let barcode = zxingcpp::create(format).from_str(request.payload.as_str()).ok()?;
    barcode.to_svg_with(&options).ok()
}

/// The answer of the symbology encoder to a payload: nothing when the
/// payload breaks a rule of its format, so that the encoder is not asked,
/// or when the encoder refuses.
pub open spec fn spec_encoder_answer(format: BarcodeFormat, payload: Seq<char>, scale: i32, quiet_zones: bool) -> Option<
    SymbolView,
> {
    match spec_encode_request(format, payload, scale, quiet_zones) {
        Ok(request) => symbol_encoded(
            request.format_name,
            request.payload,
            request.scale as int,
            request.quiet_zones,
        ),
        Err(_) => None,
    }
}

/// The SVG text of the symbology encoder for a payload at scale 5: nothing
/// when the payload breaks a rule of its format, so that the encoder is
/// not asked, or when the encoder refuses.
pub open spec fn spec_encoder_svg(format: BarcodeFormat, payload: Seq<char>, scale: i32, quiet_zones: bool) -> Option<
    Seq<char>,
> {
    match spec_encode_request(format, payload, scale, quiet_zones) {
        Ok(request) => svg_encoded(request.format_name, request.payload, SVG_SCALE as int),
        Err(_) => None,
    }
}

/// Micrometers that one text takes of the height of a barcode: its size
/// and its margin, taken as pixels at `dpi` dots per inch. A text that is
/// not printed takes none.
pub open spec fn spec_text_height(style: TextStyle, dpi: nat) -> nat
    recommends
        dpi > 0,
{
    if style.text_position == TextPosition::NoText {
        0
    } else {
        spec_px_to_mm((style.text_size + style.margin) as nat, dpi)
    }
}

/// Micrometers that the texts take of the height of a barcode.
pub open spec fn spec_total_text_height(texts: Seq<TextStyle>, dpi: nat) -> nat
    recommends
        dpi > 0,
    decreases texts.len(),
{
    if texts.len() == 0 {
        0
    } else {
        spec_total_text_height(texts.drop_last(), dpi) + spec_text_height(texts.last(), dpi)
    }
}

/// Height of the symbol, in micrometers: the height asked for less the
/// room for the texts, and at least one millimeter.
pub open spec fn spec_symbol_height(dimensions: BarcodeDimensions, texts: Seq<TextStyle>, dpi: nat) -> nat
    recommends
        dpi > 0,
{
    if texts.len() == 0 {
        dimensions.height_micrometers as nat
    } else if dimensions.height_micrometers - spec_total_text_height(texts, dpi)
        >= MIN_HEIGHT_MICROMETERS {
        (dimensions.height_micrometers - spec_total_text_height(texts, dpi)) as nat
    } else {
        MIN_HEIGHT_MICROMETERS as nat
    }
}

/// `px`, and at least one.
pub open spec fn spec_at_least_one(px: nat) -> nat {
    if px >= 1 {
        px
    } else {
        1
    }
}

/// Size of the symbol in pixels, as `(width, height)`: each side at least
/// one pixel.
pub open spec fn spec_target_size(dimensions: BarcodeDimensions, texts: Seq<TextStyle>, dpi: nat) -> (
    nat,
    nat,
)
    recommends
        dpi > 0,
{
    (
        spec_at_least_one(spec_mm_to_px(dimensions.width_micrometers as nat, dpi)),
        spec_at_least_one(spec_mm_to_px(spec_symbol_height(dimensions, texts, dpi), dpi)),
    )
}

/// The symbol after its width was scaled by the width percentage.
pub open spec fn spec_width_scaled(raw: Raster<u8>, dimensions: BarcodeDimensions) -> Raster<u8> {
    spec_resize_width_percentage(raw, dimensions.width_percentage as nat)
}

/// The symbol after both percentages were applied, the width first.
pub open spec fn spec_percent_scaled(raw: Raster<u8>, dimensions: BarcodeDimensions) -> Raster<u8> {
    spec_resize_height_percentage(
        spec_width_scaled(raw, dimensions),
        dimensions.height_percentage as nat,
    )
}

/// Percentages of 100 leave the symbol as it is.
pub proof fn lemma_full_percentages_change_nothing(raw: Raster<u8>, dimensions: BarcodeDimensions)
    requires
        dimensions.width_percentage == 100,
        dimensions.height_percentage == 100,
    ensures
        spec_percent_scaled(raw, dimensions) == raw,
{
}

/// Whether every picture on the way from the encoded symbol to the sized
/// one fits in memory.
pub open spec fn spec_sizing_fits(
    raw: Raster<u8>,
    dimensions: BarcodeDimensions,
    texts: Seq<TextStyle>,
    dpi: nat,
) -> bool {
    let first = spec_width_scaled(raw, dimensions);
    let second = spec_percent_scaled(raw, dimensions);
    let target = spec_target_size(dimensions, texts, dpi);
    &&& dimensions.width_percentage != 100 ==> fits_memory(first.width, first.height)
    &&& dimensions.height_percentage != 100 ==> fits_memory(first.width, second.height)
    &&& fits_memory(second.width, target.1)
    &&& fits_memory(target.0, target.1)
}

/// The encoded symbol brought to its size: scaled by the width percentage,
/// then by the height percentage, then resampled to the size in pixels
/// that the physical size gives at `dpi` dots per inch.
pub open spec fn spec_sized(raw: Raster<u8>, dimensions: BarcodeDimensions, texts: Seq<TextStyle>, dpi: nat) -> Raster<
    u8,
> {
    spec_resized(
        spec_percent_scaled(raw, dimensions),
        spec_target_size(dimensions, texts, dpi).0,
        spec_target_size(dimensions, texts, dpi).1,
    )
}

/// Rows that a text adds to a barcode: its size and 10 more; none for a
/// text that is not printed.
pub open spec fn spec_room(style: TextStyle) -> nat {
    if style.text_position == TextPosition::NoText {
        0
    } else {
        style.text_size as nat + TEXT_PADDING as nat
    }
}

/// Rows that a text adds above the barcode.
pub open spec fn spec_upper_room(style: TextStyle) -> nat {
    if style.text_position == TextPosition::Upper || style.text_position
        == TextPosition::UpperCenter {
        style.text_size as nat + TEXT_PADDING as nat
    } else {
        0
    }
}

/// Rows that the texts add to a barcode.
pub open spec fn spec_rooms_height(texts: Seq<TextStyle>) -> nat
    decreases texts.len(),
{
    if texts.len() == 0 {
        0
    } else {
        spec_rooms_height(texts.drop_last()) + spec_room(texts.last())
    }
}

/// Rows that the texts add above the barcode.
pub open spec fn spec_upper_rooms(texts: Seq<TextStyle>) -> nat
    decreases texts.len(),
{
    if texts.len() == 0 {
        0
    } else {
        spec_upper_rooms(texts.drop_last()) + spec_upper_room(texts.last())
    }
}

/// Whether a symbol of the given size with the rooms of its texts can be
/// made.
pub open spec fn spec_finished_fits(width: nat, height: nat, texts: Seq<TextStyle>) -> bool {
    &&& height + spec_rooms_height(texts) <= u32::MAX
    &&& fits_memory(width, height + spec_rooms_height(texts))
}

/// The finished barcode without the glyphs of its texts: a white picture
/// of the width of the symbol and higher than it by the rooms of the
/// texts, with the symbol below the rooms of the texts that stand above it.
pub open spec fn spec_finished(sized: Raster<u8>, texts: Seq<TextStyle>) -> Raster<u8> {
    spec_paste(
        spec_filled(sized.width, sized.height + spec_rooms_height(texts), 255u8),
        sized,
        0,
        spec_upper_rooms(texts),
    )
}

/// Where a text starts on the finished barcode.
#[derive(Clone, Copy, Debug, PartialEq, Eq, Structural)]
pub struct TextPlacement {
    pub text_x: u32,
    pub text_y: u32,
}

/// Column at which text `i` starts on the finished barcode.
pub open spec fn spec_placement_x(texts: Seq<TextStyle>, widths: Seq<u32>, width: nat, i: int) -> nat {
    spec_text_x(texts[i].text_position, width, widths[i] as nat)
}

/// Row at which text `i` starts on the finished barcode: 5 rows below the
/// upper edge of its room. The room of a text above the symbol lies below
/// the upper rooms of the texts after it; the room of a text below the
/// symbol lies below the symbol, the rooms of the texts before it and the
/// upper rooms of the texts after it.
pub open spec fn spec_placement_y(texts: Seq<TextStyle>, height: nat, i: int) -> nat {
    (spec_text_y(
        texts[i].text_position,
        height + spec_rooms_height(texts.subrange(0, i)),
    ) + spec_upper_rooms(texts) - spec_upper_rooms(texts.subrange(0, i + 1))) as nat
}

/// Where text `i` starts on the finished barcode; nowhere for a text that
/// is not printed.
pub open spec fn spec_placement(
    texts: Seq<TextStyle>,
    widths: Seq<u32>,
    width: nat,
    height: nat,
    i: int,
) -> Option<TextPlacement> {
    if texts[i].text_position == TextPosition::NoText {
        None
    } else {
        Some(
            TextPlacement {
                text_x: spec_placement_x(texts, widths, width, i) as u32,
                text_y: spec_placement_y(texts, height, i) as u32,
            },
        )
    }
}

/// What generating a barcode gives, from the answer of the symbology
/// encoder on: the symbol brought to its size, with the rooms of the texts
/// laid around it. The glyphs of the texts are drawn afterwards, in place.
pub open spec fn spec_generated(
    encoded: Option<SymbolView>,
    payload: Seq<char>,
    format: BarcodeFormat,
    dimensions: BarcodeDimensions,
    texts: Seq<TextStyle>,
    file_path: Seq<char>,
    dpi: nat,
) -> Result<BarcodeView, GenerationError> {
    match spec_accepted(format, payload, encoded) {
        Err(error) => Err(error),
        Ok(raw) => if spec_sizing_fits(raw, dimensions, texts, dpi) && spec_finished_fits(
            spec_target_size(dimensions, texts, dpi).0,
            spec_target_size(dimensions, texts, dpi).1,
            texts,
        ) {
            Ok(
                BarcodeView {
                    file_path,
                    value: payload,
                    buffer: spec_finished(spec_sized(raw, dimensions, texts, dpi), texts),
                },
            )
        } else {
            Err(GenerationError::ImageTooLarge)
        },
    }
}

/// The finished barcode has the width of the symbol and its height plus
/// the size of each printed text and 10 rows more for each.
pub proof fn lemma_finished_size(sized: Raster<u8>, texts: Seq<TextStyle>)
    ensures
        spec_finished(sized, texts).width == sized.width,
        spec_finished(sized, texts).height == sized.height + spec_rooms_height(texts),
{
}

/// The rooms of the first `k + 1` texts are the rooms of the first `k` and
/// the room of the next.
pub proof fn lemma_rooms_step(texts: Seq<TextStyle>, k: int)
    requires
        0 <= k < texts.len(),
    ensures
        spec_rooms_height(texts.subrange(0, k + 1)) == spec_rooms_height(texts.subrange(0, k))
            + spec_room(texts[k]),
        spec_upper_rooms(texts.subrange(0, k + 1)) == spec_upper_rooms(texts.subrange(0, k))
            + spec_upper_room(texts[k]),
        spec_upper_room(texts[k]) <= spec_room(texts[k]),
{
    let longer = texts.subrange(0, k + 1);
    assert(longer.drop_last() =~= texts.subrange(0, k));
    assert(longer.last() == texts[k]);
}

/// The texts after the first `k` add at least as many rows as they add
/// above the symbol.
pub proof fn lemma_rooms_after(texts: Seq<TextStyle>, k: int)
    requires
        0 <= k <= texts.len(),
    ensures
        spec_upper_rooms(texts.subrange(0, k)) <= spec_upper_rooms(texts),
        spec_upper_rooms(texts) - spec_upper_rooms(texts.subrange(0, k)) <= spec_rooms_height(texts)
            - spec_rooms_height(texts.subrange(0, k)),
    decreases texts.len() - k,
{
    if k == texts.len() {
        assert(texts.subrange(0, k) =~= texts);
    } else {
        lemma_rooms_step(texts, k);
        lemma_rooms_after(texts, k + 1);
    }
}

/// Number of pixels in a meter at `dpi` dots per inch, rounded down and
/// capped at the largest `u32`.
pub open spec fn spec_pixels_per_meter(dpi: nat) -> nat {
    saturate_u32(dpi * 10_000 / 254)
}

/// The PNG file that the `png` crate writes for a gray picture of `width`
/// by `height` pixels with eight bits a pixel and a physical pixel size of
/// `pixels_per_meter` on both axes; nothing when the encoder refuses the
/// picture.
pub uninterp spec fn png_encoded_gray(
    pixels: Seq<u8>,
    width: nat,
    height: nat,
    pixels_per_meter: nat,
) -> Option<Seq<u8>>;

/// Calls the `png` crate: `Encoder::new` into memory, `set_pixel_dims` with
/// the same number of pixels per meter on both axes, `set_color` with
/// grayscale, `set_depth` with eight bits, `write_header`,
/// `write_image_data` and `finish`. The contract claims that what is
/// written, or that a call fails, is determined by the pixels, the size and
/// the pixels per meter.
#[verifier::external_body]
fn encode_png_gray(pixels: &Vec<u8>, width: u32, height: u32, pixels_per_meter: u32) -> (encoded: Option<
    Vec<u8>,
>)
    ensures
        png_encoded_gray(pixels@, width as nat, height as nat, pixels_per_meter as nat)
            == match encoded {
            Some(file) => Some(file@),
            None => None,
        },
{
    let mut file: Vec<u8> = Vec::new();
    let mut encoder = png::Encoder::new(&mut file, width, height);
    let unit = png::Unit::Meter;
    encoder.set_pixel_dims(Some(png::PixelDimensions { xppu: pixels_per_meter, yppu: pixels_per_meter, unit }));
    encoder.set_color(png::ColorType::Grayscale);
    encoder.set_depth(png::BitDepth::Eight);
    let mut writer = encoder.write_header().ok()?;
    writer.write_image_data(pixels).ok()?;
    writer.finish().ok()?;
    Some(file)
}

/// Number of pixels in a meter at `dpi` dots per inch.
pub fn pixels_per_meter(dpi: u32) -> (density: u32)
    ensures
        density == spec_pixels_per_meter(dpi as nat),
{
    let density: u64 = dpi as u64 * 10_000 / 254;
    if density > u32::MAX as u64 {
        u32::MAX
    } else {
        density as u32
    }
}

/// What laying a text around a barcode asks for.
#[derive(Debug)]
pub enum TextOverlay {
    /// Nothing is printed: the barcode stays as it is.
    Unchanged(Bitmap<u8>),
    /// The text is to be drawn on `canvas` with its upper left corner in
    /// column `text_x` of row `text_y`.
    Canvas { canvas: Bitmap<RgbWrapper>, text_x: u32, text_y: u32 },
}

/// Height of the room for a text of the given size.
pub open spec fn spec_text_room(text_size: nat) -> nat {
    text_size + TEXT_PADDING as nat
}

/// Whether a position puts the text above the barcode.
pub open spec fn spec_is_upper(position: TextPosition) -> bool {
    position == TextPosition::Upper || position == TextPosition::UpperCenter
}

/// Whether a position centers the text.
pub open spec fn spec_is_centered(position: TextPosition) -> bool {
    position == TextPosition::UpperCenter || position == TextPosition::LowerCenter
}

/// Row of the canvas at which the barcode starts: below the room of a text
/// that stands above it, else at the top.
pub open spec fn spec_barcode_y(position: TextPosition, text_size: nat) -> nat {
    if spec_is_upper(position) {
        spec_text_room(text_size)
    } else {
        0
    }
}

/// Column at which the text starts: column 10, or, for a centered text, so
/// that as much of the width lies to its left as to its right, and no less
/// than 0.
pub open spec fn spec_text_x(position: TextPosition, width: nat, text_width: nat) -> nat {
    if spec_is_centered(position) {
        if text_width <= width {
            ((width - text_width) / 2) as nat
        } else {
            0
        }
    } else {
        TEXT_LEFT as nat
    }
}

/// Row at which the text starts: 5 rows below the upper edge of its room.
pub open spec fn spec_text_y(position: TextPosition, height: nat) -> nat {
    if spec_is_upper(position) {
        TEXT_TOP as nat
    } else {
        height + TEXT_TOP as nat
    }
}

/// The canvas on which a text is drawn: white, of the width of the barcode
/// and higher than it by the room for the text, with the barcode laid on
/// it in color.
pub open spec fn spec_text_canvas(image: Raster<u8>, position: TextPosition, text_size: nat) -> Raster<
    RgbWrapper,
> {
    spec_paste(
        spec_filled(
            image.width,
            image.height + spec_text_room(text_size),
            RgbWrapper { r: 255, g: 255, b: 255 },
        ),
        spec_gray_to_rgb(image),
        0,
        spec_barcode_y(position, text_size),
    )
}

/// Whether the canvas for a text around `image` can be made.
pub open spec fn spec_canvas_fits(image: Raster<u8>, text_size: nat) -> bool {
    &&& image.height + spec_text_room(text_size) <= u32::MAX
    &&& fits_memory(image.width, image.height + spec_text_room(text_size))
}

/// A picture with the room of one text laid around it: white rows of the
/// size of the text and 10 more, above the picture for a text that stands
/// above, else below it. A text that is not printed adds nothing.
pub open spec fn spec_room_added(image: Raster<u8>, style: TextStyle) -> Raster<u8> {
    spec_paste(
        spec_filled(image.width, image.height + spec_room(style), 255u8),
        image,
        0,
        spec_upper_room(style),
    )
}

/// Laying the rooms of the texts one after another, each around what the
/// texts before it made, gives the finished barcode.
pub proof fn lemma_rooms_one_by_one(sized: Raster<u8>, texts: Seq<TextStyle>, style: TextStyle)
    requires
        sized.wf(),
    ensures
        spec_finished(sized, texts.push(style)) == spec_room_added(
            spec_finished(sized, texts),
            style,
        ),
{
    let longer = texts.push(style);
    assert(longer.drop_last() =~= texts);
    assert(longer.last() == style);
    let width = sized.width;
    let rooms = spec_rooms_height(texts);
    let above = spec_upper_rooms(texts);
    lemma_rooms_after(texts, 0);
    assert(texts.subrange(0, 0) =~= Seq::<TextStyle>::empty());
    assert(above <= rooms);
    let room = spec_room(style);
    let shift = spec_upper_room(style);
    let inner = spec_finished(sized, texts);
    let outer = spec_filled(width, sized.height + rooms + room, 255u8);
    let at_once = spec_finished(sized, longer);
    let in_turn = spec_room_added(inner, style);
    assert(at_once.pixels.len() == in_turn.pixels.len());
    assert forall|i: int| 0 <= i < at_once.pixels.len() implies at_once.pixels[i]
        == in_turn.pixels[i] by {
        lemma_index_in_grid(width, sized.height + rooms + room, i as nat);
        let column = outer.column(i);
        let row = outer.row(i);
        if covered(outer, inner, 0, shift, i) {
            let inner_row = row - shift;
            lemma_grid_index_bound(
                width,
                sized.height + rooms,
                column as nat,
                inner_row as nat,
            );
            lemma_position_of_index(width, column as nat, inner_row as nat);
            let j = inner_row * width + column;
            assert(in_turn.pixels[i] == inner.pixels[j]);
            let blank = spec_filled(width, sized.height + rooms, 255u8);
            assert(blank.column(j) == column && blank.row(j) == inner_row);
            if covered(blank, sized, 0, above, j) {
                assert(covered(outer, sized, 0, above + shift, i));
            } else {
                assert(!covered(outer, sized, 0, above + shift, i));
            }
        } else {
            assert(!covered(outer, sized, 0, above + shift, i));
        }
    }
    assert(at_once.pixels =~= in_turn.pixels);
}

/// The room of one printed text, in color, is the canvas on which the text
/// is drawn.
pub proof fn lemma_room_is_the_canvas(image: Raster<u8>, style: TextStyle)
    requires
        image.wf(),
        style.text_position != TextPosition::NoText,
    ensures
        spec_gray_to_rgb(spec_room_added(image, style)) == spec_text_canvas(
            image,
            style.text_position,
            style.text_size as nat,
        ),
{
    let gray = spec_room_added(image, style);
    let colored = spec_text_canvas(image, style.text_position, style.text_size as nat);
    let height = image.height + spec_room(style);
    let blank = spec_filled(image.width, height, 255u8);
    let white = spec_filled(image.width, height, RgbWrapper { r: 255, g: 255, b: 255 });
    let shift = spec_upper_room(style);
    assert(shift == spec_barcode_y(style.text_position, style.text_size as nat));
    assert(spec_gray_to_rgb(gray).pixels.len() == colored.pixels.len());
    assert forall|i: int| 0 <= i < colored.pixels.len() implies spec_gray_to_rgb(gray).pixels[i]
        == colored.pixels[i] by {
        lemma_index_in_grid(image.width, height, i as nat);
        if covered(blank, image, 0, shift, i) {
            lemma_grid_index_bound(
                image.width,
                image.height,
                blank.column(i) as nat,
                (blank.row(i) - shift) as nat,
            );
            assert(covered(white, spec_gray_to_rgb(image), 0, shift, i));
        } else {
            assert(!covered(white, spec_gray_to_rgb(image), 0, shift, i));
        }
    }
    assert(spec_gray_to_rgb(gray).pixels =~= colored.pixels);
}

/// Rows that the texts add to a barcode, and rows that they add above it,
/// as `(all, above)`; nothing when the rows cannot be counted in a `u32`.
pub fn text_rooms(texts: &Vec<BarcodeTextStyleConfig>) -> (rooms: Option<(u32, u32)>)
    ensures
        match rooms {
            Some(sums) => sums.0 == spec_rooms_height(spec_styles(texts@)) && sums.1
                == spec_upper_rooms(spec_styles(texts@)),
            None => spec_rooms_height(spec_styles(texts@)) > u32::MAX,
        },
{
    let ghost styles = spec_styles(texts@);
    let mut all: u64 = 0;
    let mut above: u64 = 0;
    let mut i: usize = 0;
    assert(styles.subrange(0, 0) =~= Seq::empty());
    while i < texts.len()
        invariant
            i <= texts.len(),
            styles == spec_styles(texts@),
            all == spec_rooms_height(styles.subrange(0, i as int)),
            above == spec_upper_rooms(styles.subrange(0, i as int)),
            above <= all <= u32::MAX,
        decreases texts.len() - i,
    {
        let style: &BarcodeTextStyleConfig = &texts[i];
        assert(styles[i as int] == style@);
        proof {
            lemma_rooms_step(styles, i as int);
            lemma_rooms_after(styles, i + 1);
        }
        let position: TextPosition = style.text_position;
        let room: u64 = if position == TextPosition::NoText {
            0
        } else {
            style.text_size as u64 + TEXT_PADDING as u64
        };
        let upper: bool = position == TextPosition::Upper || position == TextPosition::UpperCenter;
        all = all + room;
        if upper {
            above = above + room;
        }
        if all > u32::MAX as u64 {
            return None;
        }
        i += 1;
    }
    assert(styles.subrange(0, i as int) =~= styles);
    Some((all as u32, above as u32))
}

/// Generates barcodes.
pub struct Generator {}

impl Generator {
    pub fn new() -> (generator: Self) {
        Self {  }
    }

    /// What the symbology encoder is to be asked for a payload, once the
    /// payload has passed the rules of the format.
    pub fn encode_request(&self, data: &str, config: &BarcodeConfigInternal) -> (request: Result<
        EncodeRequest,
        GenerationError,
    >)
        ensures
            match request {
                Ok(asked) => spec_encode_request(
                    config.format,
                    data@,
                    config.scale,
                    config.quiet_zones,
                ) == Ok::<RequestView, GenerationError>(asked@),
                Err(error) => spec_encode_request(
                    config.format,
                    data@,
                    config.scale,
                    config.quiet_zones,
                ) == Err::<RequestView, GenerationError>(error),
            },
    {
        match validate_payload(config.format, data) {
            Err(error) => Err(GenerationError::Encoding(error)),
            Ok(_) => Ok(
                EncodeRequest {
                    format_name: config.format.encoder_name().to_owned(),
                    payload: data.to_owned(),
                    scale: config.scale,
                    quiet_zones: config.quiet_zones,
                },
            ),
        }
    }

    /// Takes the answer of the symbology encoder: fails with the rule that
    /// the payload breaks, or because the encoder gave nothing, or because
    /// the pixels of the symbol do not match its size; else gives the
    /// symbol as a bitmap.
    pub fn accept_symbol(&self, encoded: Option<RawSymbol>, data: &str, format: BarcodeFormat) -> (accepted: Result<
        Bitmap<u8>,
        GenerationError,
    >)
        ensures
            match accepted {
                Ok(symbol) => spec_accepted(format, data@, spec_answer(encoded)) == Ok::<
                    Raster<u8>,
                    GenerationError,
                >(symbol@),
                Err(error) => spec_accepted(format, data@, spec_answer(encoded)) == Err::<
                    Raster<u8>,
                    GenerationError,
                >(error),
            },
    {
        match validate_payload(format, data) {
            Err(error) => {
                return Err(GenerationError::Encoding(error));
            },
            Ok(_) => {},
        }
        match encoded {
            None => Err(GenerationError::Encoding(EncodingError::Rejected)),
            Some(symbol) => match symbol_bitmap(symbol) {
                None => Err(GenerationError::Encoding(EncodingError::MalformedSymbol)),
                Some(bitmap) => Ok(bitmap),
            },
        }
    }

    /// Micrometers that the texts of a request take of the height of its
    /// barcode at `dpi` dots per inch, capped at the largest `u64`.
    pub fn calculate_total_text_height_mm(&self, config: &BarcodeConfigInternal, dpi: u32) -> (total: u64)
        requires
            dpi > 0,
        ensures
            total == if spec_total_text_height(config@.texts, dpi as nat) <= u64::MAX {
                spec_total_text_height(config@.texts, dpi as nat)
            } else {
                u64::MAX as nat
            },
    {
        let ghost texts = config@.texts;
        let mut total: u64 = 0;
        let mut i: usize = 0;
        assert(texts.subrange(0, 0) =~= Seq::empty());
        while i < config.texts.len()
            invariant
                i <= config.texts.len(),
                dpi > 0,
                texts == spec_styles(config.texts@),
                total == if spec_total_text_height(texts.subrange(0, i as int), dpi as nat)
                    <= u64::MAX {
                    spec_total_text_height(texts.subrange(0, i as int), dpi as nat)
                } else {
                    u64::MAX as nat
                },
            decreases config.texts.len() - i,
        {
            let style: &BarcodeTextStyleConfig = &config.texts[i];
            assert(texts[i as int] == style@);
            let height: u64 = if style.text_position == TextPosition::NoText {
                0
            } else {
                rounded_quotient(
                    (style.text_size as u64 + style.margin as u64) * MICROMETERS_PER_INCH,
                    dpi as u64,
                )
            };
            assert(height == spec_text_height(style@, dpi as nat));
            proof {
                let longer = texts.subrange(0, i + 1);
                assert(longer.drop_last() =~= texts.subrange(0, i as int));
                assert(longer.last() == texts[i as int]);
            }
            total = if height > u64::MAX - total {
                u64::MAX
            } else {
                total + height
            };
            i += 1;
        }
        assert(texts.subrange(0, i as int) =~= texts);
        total
    }

    /// Size of the symbol in pixels at `dpi` dots per inch, as
    /// `(width, height)`: the physical size less the room for the texts.
    pub fn target_size(&self, config: &BarcodeConfigInternal, dpi: u32) -> (size: (u32, u32))
        requires
            dpi > 0,
        ensures
            size.0 == spec_target_size(config.dimensions, config@.texts, dpi as nat).0,
            size.1 == spec_target_size(config.dimensions, config@.texts, dpi as nat).1,
            size.0 >= 1,
            size.1 >= 1,
    {
        let calculator = DimensionCalculator::new();
        let height_micrometers: u32 = if config.texts.len() == 0 {
            config.dimensions.height_micrometers
        } else {
            let taken: u64 = self.calculate_total_text_height_mm(config, dpi);
            let asked: u64 = config.dimensions.height_micrometers as u64;
            if asked >= taken && asked - taken >= MIN_HEIGHT_MICROMETERS as u64 {
                (asked - taken) as u32
            } else {
                MIN_HEIGHT_MICROMETERS
            }
        };
        let width: u32 = calculator.mm_to_px(config.dimensions.width_micrometers, dpi);
        let height: u32 = calculator.mm_to_px(height_micrometers, dpi);
        (if width >= 1 {
            width
        } else {
            1
        }, if height >= 1 {
            height
        } else {
            1
        })
    }

    /// Brings an encoded symbol to its size: scales it by the width
    /// percentage, then by the height percentage, then resamples it to the
    /// size in pixels that the physical size gives at `dpi` dots per inch.
    /// Fails when a picture on the way would not fit in memory.
    pub fn size_barcode(&self, raw: &Bitmap<u8>, config: &BarcodeConfigInternal, dpi: u32) -> (sized: Result<
        Bitmap<u8>,
        GenerationError,
    >)
        requires
            dpi > 0,
        ensures
            match sized {
                Ok(image) => spec_sizing_fits(raw@, config.dimensions, config@.texts, dpi as nat)
                    && image@ == spec_sized(raw@, config.dimensions, config@.texts, dpi as nat),
                Err(error) => error == GenerationError::ImageTooLarge && !spec_sizing_fits(
                    raw@,
                    config.dimensions,
                    config@.texts,
                    dpi as nat,
                ),
            },
    {
        let (raw_width, raw_height) = raw.dimensions();
        let width_percentage: u32 = config.dimensions.width_percentage;
        let height_percentage: u32 = config.dimensions.height_percentage;
        let first: Bitmap<u8> = if width_percentage == 100 {
            raw.duplicate()
        } else {
            let width: u32 = scaled(raw_width, width_percentage);
            if !size_fits_memory(width, raw_height) {
                return Err(GenerationError::ImageTooLarge);
            }
            raw.resized(width, raw_height)
        };
        let (first_width, first_height) = first.dimensions();
        let second: Bitmap<u8> = if height_percentage == 100 {
            first
        } else {
            let height: u32 = scaled(first_height, height_percentage);
            if !size_fits_memory(first_width, height) {
                return Err(GenerationError::ImageTooLarge);
            }
            first.resized(first_width, height)
        };
        let (second_width, second_height) = second.dimensions();
        let (width, height) = self.target_size(config, dpi);
        if !size_fits_memory(second_width, height) || !size_fits_memory(width, height) {
            return Err(GenerationError::ImageTooLarge);
        }
        Ok(second.resized(width, height))
    }

    /// Asks the symbology encoder for a symbol.
    pub fn encode(&self, request: &EncodeRequest) -> (encoded: Option<RawSymbol>)
        ensures
            spec_answer(encoded) == symbol_encoded(
                request@.format_name,
                request@.payload,
                request@.scale as int,
                request@.quiet_zones,
            ),
    {
        encode_symbol(request)
    }

    /// Lays the rooms of the texts around a sized symbol: a white picture
    /// of the width of the symbol and higher than it by the size of each
    /// printed text and 10 rows more for each, with the symbol below the
    /// rooms of the texts that stand above it. Fails when the picture
    /// would not fit in memory.
    pub fn lay_text_rooms(&self, sized: &Bitmap<u8>, texts: &Vec<BarcodeTextStyleConfig>) -> (finished: Result<
        Bitmap<u8>,
        GenerationError,
    >)
        ensures
            match finished {
                Ok(picture) => {
                    &&& spec_finished_fits(sized@.width, sized@.height, spec_styles(texts@))
                    &&& picture@ == spec_finished(sized@, spec_styles(texts@))
                    &&& picture@.width == sized@.width
                    &&& picture@.height == sized@.height + spec_rooms_height(spec_styles(texts@))
                },
                Err(error) => error == GenerationError::ImageTooLarge && !spec_finished_fits(
                    sized@.width,
                    sized@.height,
                    spec_styles(texts@),
                ),
            },
    {
        let (width, height) = sized.dimensions();
        let (all, above) = match text_rooms(texts) {
            Some(sums) => sums,
            None => {
                return Err(GenerationError::ImageTooLarge);
            },
        };
        let new_height: u64 = height as u64 + all as u64;
        if new_height > u32::MAX as u64 || !size_fits_memory(width, new_height as u32) {
            return Err(GenerationError::ImageTooLarge);
        }
        let mut picture: Bitmap<u8> = Bitmap::new(width, new_height as u32, 255u8).unwrap();
        picture.paste(sized, 0, above);
        Ok(picture)
    }

    /// Where each text of a request starts on the finished barcode, given
    /// the width of each text in pixels; nowhere for a text that is not
    /// printed. A text starts in column 10, or centered on its width, 5
    /// rows below the upper edge of its room. Fails when the finished
    /// barcode would not fit in memory.
    pub fn text_placements(&self, config: &BarcodeConfigInternal, dpi: u32, text_widths: &Vec<u32>) -> (placements: Result<
        Vec<Option<TextPlacement>>,
        GenerationError,
    >)
        requires
            dpi > 0,
            text_widths@.len() == config.texts@.len(),
        ensures
            match placements {
                Ok(places) => {
                    &&& spec_finished_fits(
                        spec_target_size(config.dimensions, config@.texts, dpi as nat).0,
                        spec_target_size(config.dimensions, config@.texts, dpi as nat).1,
                        config@.texts,
                    )
                    &&& places@.len() == config@.texts.len()
                    &&& forall|i: int|
                        0 <= i < places@.len() ==> places@[i] == spec_placement(
                            config@.texts,
                            text_widths@,
                            spec_target_size(config.dimensions, config@.texts, dpi as nat).0,
                            spec_target_size(config.dimensions, config@.texts, dpi as nat).1,
                            i,
                        )
                },
                Err(error) => error == GenerationError::ImageTooLarge && !spec_finished_fits(
                    spec_target_size(config.dimensions, config@.texts, dpi as nat).0,
                    spec_target_size(config.dimensions, config@.texts, dpi as nat).1,
                    config@.texts,
                ),
            },
    {
        let ghost styles = config@.texts;
        let (width, height) = self.target_size(config, dpi);
        let (all, above) = match text_rooms(&config.texts) {
            Some(sums) => sums,
            None => {
                return Err(GenerationError::ImageTooLarge);
            },
        };
        let new_height: u64 = height as u64 + all as u64;
        if new_height > u32::MAX as u64 || !size_fits_memory(width, new_height as u32) {
            return Err(GenerationError::ImageTooLarge);
        }
        let mut places: Vec<Option<TextPlacement>> = Vec::new();
        let mut before: u64 = 0;
        let mut above_so_far: u64 = 0;
        let mut i: usize = 0;
        assert(styles.subrange(0, 0) =~= Seq::empty());
        while i < config.texts.len()
            invariant
                i <= config.texts.len(),
                styles == spec_styles(config.texts@),
                text_widths@.len() == config.texts@.len(),
                all == spec_rooms_height(styles),
                above == spec_upper_rooms(styles),
                height + all <= u32::MAX,
                before == spec_rooms_height(styles.subrange(0, i as int)),
                above_so_far == spec_upper_rooms(styles.subrange(0, i as int)),
                before <= all,
                above_so_far <= above,
                places@.len() == i,
                forall|k: int|
                    0 <= k < i ==> places@[k] == spec_placement(
                        styles,
                        text_widths@,
                        width as nat,
                        height as nat,
                        k,
                    ),
            decreases config.texts.len() - i,
        {
            let style: &BarcodeTextStyleConfig = &config.texts[i];
            assert(styles[i as int] == style@);
            proof {
                lemma_rooms_step(styles, i as int);
                lemma_rooms_after(styles, i + 1);
                lemma_rooms_after(styles, i as int);
            }
            let position: TextPosition = style.text_position;
            if position == TextPosition::NoText {
                places.push(None);
            } else {
                let room: u64 = style.text_size as u64 + TEXT_PADDING as u64;
                let upper: bool = position == TextPosition::Upper || position
                    == TextPosition::UpperCenter;
                let centered: bool = position == TextPosition::UpperCenter || position
                    == TextPosition::LowerCenter;
                let text_width: u32 = text_widths[i];
                let text_x: u32 = if centered {
                    if text_width <= width {
                        (width - text_width) / 2
                    } else {
                        0
                    }
                } else {
                    TEXT_LEFT
                };
                let above_after: u64 = if upper {
                    above as u64 - above_so_far - room
                } else {
                    above as u64 - above_so_far
                };
                let text_y: u64 = if upper {
                    TEXT_TOP as u64 + above_after
                } else {
                    height as u64 + before + TEXT_TOP as u64 + above_after
                };
                assert(text_y == spec_placement_y(styles, height as nat, i as int));
                places.push(Some(TextPlacement { text_x, text_y: text_y as u32 }));
                before = before + room;
                if upper {
                    above_so_far = above_so_far + room;
                }
            }
            i += 1;
        }
        Ok(places)
    }

    /// Finishes a barcode at `dpi` dots per inch from the answer of the
    /// symbology encoder: checks the payload and the symbol, brings the
    /// symbol to its size and lays the rooms of the texts around it. The
    /// record has the width of the symbol and its height plus the size of
    /// each printed text and 10 rows more for each; `text_placements` says
    /// where the glyphs of each text are then drawn, in place.
    pub fn finish_barcode(
        &self,
        encoded: Option<RawSymbol>,
        data: &str,
        config: BarcodeConfigInternal,
        filename: &str,
        dpi: u32,
    ) -> (generated: Result<GeneratedBarcode, GenerationError>)
        requires
            dpi > 0,
        ensures
            match generated {
                Ok(barcode) => spec_generated(
                    spec_answer(encoded),
                    data@,
                    config.format,
                    config.dimensions,
                    config@.texts,
                    filename@,
                    dpi as nat,
                ) == Ok::<BarcodeView, GenerationError>(barcode@),
                Err(error) => spec_generated(
                    spec_answer(encoded),
                    data@,
                    config.format,
                    config.dimensions,
                    config@.texts,
                    filename@,
                    dpi as nat,
                ) == Err::<BarcodeView, GenerationError>(error),
            },
            match generated {
                Ok(barcode) => {
                    &&& barcode@.value == data@
                    &&& barcode@.file_path == filename@
                    &&& barcode@.buffer.width == spec_target_size(
                        config.dimensions,
                        config@.texts,
                        dpi as nat,
                    ).0
                    &&& barcode@.buffer.height == spec_target_size(
                        config.dimensions,
                        config@.texts,
                        dpi as nat,
                    ).1 + spec_rooms_height(config@.texts)
                },
                Err(_) => true,
            },
    {
        let raw = match self.accept_symbol(encoded, data, config.format) {
            Ok(raw) => raw,
            Err(error) => {
                return Err(error);
            },
        };
        let sized = match self.size_barcode(&raw, &config, dpi) {
            Ok(sized) => sized,
            Err(error) => {
                return Err(error);
            },
        };
        match self.lay_text_rooms(&sized, &config.texts) {
            Err(error) => Err(error),
            Ok(buffer) => Ok(
                GeneratedBarcode { file_path: filename.to_owned(), value: data.to_owned(), buffer },
            ),
        }
    }

    /// Generates a barcode at `dpi` dots per inch: checks the payload
    /// against the rules of its format, asks the symbology encoder for the
    /// symbol, brings the symbol to its size and lays the rooms of the
    /// texts around it. The record has the width of the symbol and its
    /// height plus the size of each printed text and 10 rows more for
    /// each; `text_placements` says where the glyphs of each text are then
    /// drawn, in place.
    pub fn generate_barcode_png_with_dpi(
        &self,
        data: &str,
        config: BarcodeConfigInternal,
        filename: &str,
        dpi: u32,
    ) -> (generated: Result<GeneratedBarcode, GenerationError>)
        requires
            dpi > 0,
        ensures
            match generated {
                Ok(barcode) => spec_generated(
                    spec_encoder_answer(config.format, data@, config.scale, config.quiet_zones),
                    data@,
                    config.format,
                    config.dimensions,
                    config@.texts,
                    filename@,
                    dpi as nat,
                ) == Ok::<BarcodeView, GenerationError>(barcode@),
                Err(error) => spec_generated(
                    spec_encoder_answer(config.format, data@, config.scale, config.quiet_zones),
                    data@,
                    config.format,
                    config.dimensions,
                    config@.texts,
                    filename@,
                    dpi as nat,
                ) == Err::<BarcodeView, GenerationError>(error),
            },
            match generated {
                Ok(barcode) => {
                    &&& barcode@.value == data@
                    &&& barcode@.file_path == filename@
                    &&& barcode@.buffer.width == spec_target_size(
                        config.dimensions,
                        config@.texts,
                        dpi as nat,
                    ).0
                    &&& barcode@.buffer.height == spec_target_size(
                        config.dimensions,
                        config@.texts,
                        dpi as nat,
                    ).1 + spec_rooms_height(config@.texts)
                },
                Err(_) => true,
            },
    {
        let encoded: Option<RawSymbol> = match self.encode_request(data, &config) {
            Ok(request) => self.encode(&request),
            Err(_) => None,
        };
        self.finish_barcode(encoded, data, config, filename, dpi)
    }

    /// Generates a barcode at 300 dots per inch.
    pub fn generate_barcode_png(&self, data: &str, config: BarcodeConfigInternal, filename: &str) -> (generated: Result<
        GeneratedBarcode,
        GenerationError,
    >)
        ensures
            match generated {
                Ok(barcode) => spec_generated(
                    spec_encoder_answer(config.format, data@, config.scale, config.quiet_zones),
                    data@,
                    config.format,
                    config.dimensions,
                    config@.texts,
                    filename@,
                    DEFAULT_DPI as nat,
                ) == Ok::<BarcodeView, GenerationError>(barcode@),
                Err(error) => spec_generated(
                    spec_encoder_answer(config.format, data@, config.scale, config.quiet_zones),
                    data@,
                    config.format,
                    config.dimensions,
                    config@.texts,
                    filename@,
                    DEFAULT_DPI as nat,
                ) == Err::<BarcodeView, GenerationError>(error),
            },
            match generated {
                Ok(barcode) => {
                    &&& barcode@.value == data@
                    &&& barcode@.file_path == filename@
                    &&& barcode@.buffer.width == spec_target_size(
                        config.dimensions,
                        config@.texts,
                        DEFAULT_DPI as nat,
                    ).0
                    &&& barcode@.buffer.height == spec_target_size(
                        config.dimensions,
                        config@.texts,
                        DEFAULT_DPI as nat,
                    ).1 + spec_rooms_height(config@.texts)
                },
                Err(_) => true,
            },
    {
        self.generate_barcode_png_with_dpi(data, config, filename, DEFAULT_DPI)
    }

    /// Takes the SVG text that the symbology encoder drew, or nothing when
    /// it refused: fails with the rule that the payload breaks, or because
    /// the encoder gave nothing; else gives the text with the record of the
    /// barcode, which names the payload and the file and has no pixels.
    pub fn finish_svg(
        &self,
        drawn: Option<String>,
        data: &str,
        config: BarcodeConfigInternal,
        filename: &str,
    ) -> (generated: Result<(GeneratedBarcode, String), GenerationError>)
        ensures
            match generated {
                Ok(pair) => {
                    &&& spec_validation_error(config.format, data@) is None
                    &&& drawn == Some(pair.1)
                    &&& pair.0@ == (BarcodeView {
                        file_path: filename@,
                        value: data@,
                        buffer: spec_filled(0, 0, 0u8),
                    })
                },
                Err(error) => match spec_validation_error(config.format, data@) {
                    Some(rule) => error == GenerationError::Encoding(rule),
                    None => drawn is None && error == GenerationError::Encoding(
                        EncodingError::Rejected,
                    ),
                },
            },
    {
        match validate_payload(config.format, data) {
            Err(error) => {
                return Err(GenerationError::Encoding(error));
            },
            Ok(_) => {},
        }
        match drawn {
            None => Err(GenerationError::Encoding(EncodingError::Rejected)),
            Some(svg) => {
                let buffer: Bitmap<u8> = Bitmap::new(0, 0, 0u8).unwrap();
                Ok(
                    (
                        GeneratedBarcode {
                            file_path: filename.to_owned(),
                            value: data.to_owned(),
                            buffer,
                        },
                        svg,
                    ),
                )
            },
        }
    }

    /// Draws a payload as SVG text at scale 5: checks the payload against
    /// the rules of its format and asks the symbology encoder for the
    /// text. The record that comes with the text names the payload and the
    /// file and has no pixels.
    pub fn generate_barcode_svg(&self, data: &str, config: BarcodeConfigInternal, filename: &str) -> (generated: Result<
        (GeneratedBarcode, String),
        GenerationError,
    >)
        ensures
            match generated {
                Ok(pair) => {
                    &&& spec_encoder_svg(config.format, data@, config.scale, config.quiet_zones)
                        == Some(pair.1@)
                    &&& pair.0@ == (BarcodeView {
                        file_path: filename@,
                        value: data@,
                        buffer: spec_filled(0, 0, 0u8),
                    })
                },
                Err(error) => match spec_validation_error(config.format, data@) {
                    Some(rule) => error == GenerationError::Encoding(rule),
                    None => error == GenerationError::Encoding(EncodingError::Rejected)
                        && spec_encoder_svg(
                        config.format,
                        data@,
                        config.scale,
                        config.quiet_zones,
                    ) is None,
                },
            },
    {
        let drawn: Option<String> = match self.encode_request(data, &config) {
            Ok(request) => encode_svg(&request, SVG_SCALE),
            Err(_) => None,
        };
        self.finish_svg(drawn, data, config, filename)
    }

    /// The PNG file of a barcode, with the physical pixel size that `dpi`
    /// dots per inch give on both axes.
    pub fn png_file(&self, image: &Bitmap<u8>, dpi: u32) -> (file: Result<Vec<u8>, GenerationError>)
        ensures
            match file {
                Ok(bytes) => png_encoded_gray(
                    image@.pixels,
                    image@.width,
                    image@.height,
                    spec_pixels_per_meter(dpi as nat),
                ) == Some(bytes@),
                Err(error) => error == GenerationError::PngEncoding && png_encoded_gray(
                    image@.pixels,
                    image@.width,
                    image@.height,
                    spec_pixels_per_meter(dpi as nat),
                ) is None,
            },
    {
        let (width, height) = image.dimensions();
        match encode_png_gray(image.pixels(), width, height, pixels_per_meter(dpi)) {
            Some(bytes) => Ok(bytes),
            None => Err(GenerationError::PngEncoding),
        }
    }

    /// Makes room for one text around a barcode. A text that is not
    /// printed leaves the barcode as it is. Any other text gets a white
    /// canvas of the width of the barcode and higher than it by the size of
    /// the text plus 10 pixels, with the barcode below the room of a text
    /// that stands above it, else at the top; the text starts in column 10,
    /// or centered on `text_width`, 5 rows below the upper edge of its
    /// room. Fails when the canvas would not fit in memory.
    pub fn prepare_text_overlay(&self, image: Bitmap<u8>, style: &BarcodeTextStyleConfig, text_width: u32) -> (overlay: Result<
        TextOverlay,
        GenerationError,
    >)
        ensures
            match overlay {
                Ok(TextOverlay::Unchanged(same)) => {
                    &&& style.text_position == TextPosition::NoText
                    &&& same@ == image@
                },
                Ok(TextOverlay::Canvas { canvas, text_x, text_y }) => {
                    &&& style.text_position != TextPosition::NoText
                    &&& spec_canvas_fits(image@, style.text_size as nat)
                    &&& canvas@ == spec_text_canvas(
                        image@,
                        style.text_position,
                        style.text_size as nat,
                    )
                    &&& canvas@.width == image@.width
                    &&& canvas@.height == image@.height + style.text_size + TEXT_PADDING
                    &&& text_x == spec_text_x(style.text_position, image@.width, text_width as nat)
                    &&& text_y == spec_text_y(style.text_position, image@.height)
                },
                Err(error) => {
                    &&& style.text_position != TextPosition::NoText
                    &&& !spec_canvas_fits(image@, style.text_size as nat)
                    &&& error == GenerationError::ImageTooLarge
                },
            },
    {
        let position: TextPosition = style.text_position;
        if position == TextPosition::NoText {
            return Ok(TextOverlay::Unchanged(image));
        }
        let (width, height) = image.dimensions();
        let new_height: u64 = height as u64 + style.text_size as u64 + TEXT_PADDING as u64;
        if new_height > u32::MAX as u64 || !size_fits_memory(width, new_height as u32) {
            return Err(GenerationError::ImageTooLarge);
        }
        let room: u32 = style.text_size + TEXT_PADDING;
        let upper: bool = position == TextPosition::Upper || position == TextPosition::UpperCenter;
        let centered: bool = position == TextPosition::UpperCenter || position
            == TextPosition::LowerCenter;
        let barcode_y: u32 = if upper {
            room
        } else {
            0
        };
        let text_x: u32 = if centered {
            if text_width <= width {
                (width - text_width) / 2
            } else {
                0
            }
        } else {
            TEXT_LEFT
        };
        let text_y: u32 = if upper {
            TEXT_TOP
        } else {
            height + TEXT_TOP
        };
        let white = RgbWrapper { r: 255, g: 255, b: 255 };
        let mut canvas: Bitmap<RgbWrapper> = Bitmap::new(width, new_height as u32, white).unwrap();
        let colored: Bitmap<RgbWrapper> = image.to_rgb();
        canvas.paste(&colored, 0, barcode_y);
        Ok(TextOverlay::Canvas { canvas, text_x, text_y })
    }
}

} // verus!
