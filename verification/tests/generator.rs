use rust_barcode_generator::barcode_config::BarcodeConfigBuilder;
use rust_barcode_generator::barcode_config::BarcodeConfigInternal;
use rust_barcode_generator::barcode_config::BarcodeFormat;
use rust_barcode_generator::barcode_config::BarcodeTextStyleConfig;
use rust_barcode_generator::barcode_config::TextPosition;
use rust_barcode_generator::generator::pixels_per_meter;
use rust_barcode_generator::generator::symbol_bitmap;
use rust_barcode_generator::generator::text_rooms;
use rust_barcode_generator::generator::GenerationError;
use rust_barcode_generator::generator::Generator;
use rust_barcode_generator::generator::RawSymbol;
use rust_barcode_generator::generator::TextOverlay;
use rust_barcode_generator::generator::TextPlacement;
use rust_barcode_generator::raster::Bitmap;
use rust_barcode_generator::raster::RgbWrapper;
use rust_barcode_generator::validator::EncodingError;

const RED: RgbWrapper = RgbWrapper { r: 255, g: 0, b: 0 };
const WHITE: RgbWrapper = RgbWrapper { r: 255, g: 255, b: 255 };

fn request(format: BarcodeFormat, data: &str) -> BarcodeConfigInternal {
    let mut config = BarcodeConfigBuilder::new().set_format(format).build();
    config.data = data.to_string();
    BarcodeConfigInternal::from_config(config)
}

fn style(position: TextPosition, text_size: u32) -> BarcodeTextStyleConfig {
    BarcodeTextStyleConfig {
        text: "label".to_string(),
        text_color: RED,
        text_size,
        text_position: position,
        font: "DejaVuSans".to_string(),
        margin: 5,
    }
}

fn numbered(width: u32, height: u32) -> Bitmap<u8> {
    let pixels: Vec<u8> = (0..width * height).map(|i| (i % 200) as u8).collect();
    Bitmap::from_pixels(width, height, pixels).unwrap()
}

fn striped(width: i32, height: i32) -> RawSymbol {
    let pixels: Vec<u8> =
        (0..width * height).map(|i| if (i % width) % 2 == 0 { 0u8 } else { 255u8 }).collect();
    RawSymbol { width, height, pixels }
}

#[test]
fn request_names_the_format_as_the_encoder_knows_it() {
    let generator = Generator::new();
    let mut config = request(BarcodeFormat::DataBarExpanded, "(01)09521234543213");
    config.scale = 3;
    config.quiet_zones = false;
    let asked = generator.encode_request("(01)09521234543213", &config).unwrap();
    assert_eq!(asked.format_name, "DataBarExp");
    assert_eq!(asked.payload, "(01)09521234543213");
    assert_eq!(asked.scale, 3);
    assert!(!asked.quiet_zones);
    let plain = generator.encode_request("HELLO", &request(BarcodeFormat::Code39, "HELLO")).unwrap();
    assert_eq!(plain.format_name, "Code39");
    assert_eq!(plain.scale, 10);
    assert!(plain.quiet_zones);
}

#[test]
fn payload_rules_come_before_the_encoder() {
    let generator = Generator::new();
    let cases = [
        (BarcodeFormat::Codabar, "A1234567890123456".to_string(), EncodingError::CodabarTooLong),
        (BarcodeFormat::UPCE, "123456789".to_string(), EncodingError::UpceTooLong),
        (BarcodeFormat::Code39, "A".repeat(100), EncodingError::Code39TooLong),
        (BarcodeFormat::DataBar, "1".repeat(100), EncodingError::DataBarTooLong),
        (
            BarcodeFormat::DataBarExpanded,
            "\u{100}".to_string(),
            EncodingError::DataBarExpandedCharacter,
        ),
    ];
    for (format, data, error) in cases {
        let config = request(format, &data);
        assert_eq!(
            generator.encode_request(&data, &config).unwrap_err(),
            GenerationError::Encoding(error)
        );
        assert_eq!(
            generator.accept_symbol(Some(striped(4, 2)), &data, format).unwrap_err(),
            GenerationError::Encoding(error)
        );
    }
}

#[test]
fn encoder_refusal_is_an_encoding_error() {
    let generator = Generator::new();
    assert_eq!(
        generator.accept_symbol(None, "not digits", BarcodeFormat::EAN13).unwrap_err(),
        GenerationError::Encoding(EncodingError::Rejected)
    );
    let config = request(BarcodeFormat::EAN13, "not digits");
    assert_eq!(
        generator.finish_barcode(None, "not digits", config, "x.png", 300).unwrap_err(),
        GenerationError::Encoding(EncodingError::Rejected)
    );
}

#[test]
fn symbol_that_does_not_match_its_size_is_refused() {
    let generator = Generator::new();
    let short = RawSymbol { width: 3, height: 3, pixels: vec![0; 8] };
    assert_eq!(
        generator.accept_symbol(Some(short), "HELLO", BarcodeFormat::Code39).unwrap_err(),
        GenerationError::Encoding(EncodingError::MalformedSymbol)
    );
    let accepted =
        generator.accept_symbol(Some(striped(4, 2)), "HELLO", BarcodeFormat::Code39).unwrap();
    assert_eq!(accepted.dimensions(), (4, 2));
    assert_eq!(accepted.pixels(), &vec![0u8, 255, 0, 255, 0, 255, 0, 255]);
}

#[test]
fn symbol_must_match_its_size() {
    let good = RawSymbol { width: 2, height: 2, pixels: vec![0, 255, 255, 0] };
    let bitmap = symbol_bitmap(good).unwrap();
    assert_eq!(bitmap.dimensions(), (2, 2));
    assert_eq!(bitmap.pixels(), &vec![0u8, 255, 255, 0]);
    assert!(symbol_bitmap(RawSymbol { width: 2, height: 2, pixels: vec![0, 255, 255] }).is_none());
    assert!(symbol_bitmap(RawSymbol { width: -1, height: 2, pixels: vec![] }).is_none());
    assert!(symbol_bitmap(RawSymbol { width: 2, height: -2, pixels: vec![0; 4] }).is_none());
    assert!(symbol_bitmap(RawSymbol { width: 0, height: 0, pixels: vec![] }).is_some());
}

#[test]
fn target_size_without_texts() {
    let generator = Generator::new();
    let config = request(BarcodeFormat::Code39, "HELLO");
    // 48.5 mm and 16.9 mm at 300 dots per inch: 572.8 and 199.6 pixels.
    assert_eq!(generator.target_size(&config, 300), (573, 200));
    assert_eq!(generator.target_size(&config, 72), (137, 48));
    assert_eq!(generator.calculate_total_text_height_mm(&config, 300), 0);
}

#[test]
fn texts_take_room_from_the_height() {
    let generator = Generator::new();
    let mut config = request(BarcodeFormat::Code39, "HELLO");
    config.texts.push(style(TextPosition::UpperCenter, 20));
    // 25 pixels at 300 dots per inch are 2116.67 micrometers.
    assert_eq!(generator.calculate_total_text_height_mm(&config, 300), 2_117);
    // 16.9 mm less 2.117 mm are 14.783 mm: 174.6 pixels.
    assert_eq!(generator.target_size(&config, 300), (573, 175));
    config.texts.push(style(TextPosition::Lower, 20));
    assert_eq!(generator.calculate_total_text_height_mm(&config, 300), 4_234);
    // 12.666 mm: 149.6 pixels.
    assert_eq!(generator.target_size(&config, 300), (573, 150));
}

#[test]
fn a_text_that_is_not_printed_takes_no_room() {
    let generator = Generator::new();
    let mut config = request(BarcodeFormat::Code39, "HELLO");
    config.texts.push(style(TextPosition::NoText, 20));
    assert_eq!(generator.calculate_total_text_height_mm(&config, 300), 0);
    assert_eq!(generator.target_size(&config, 300), (573, 200));
}

#[test]
fn symbol_keeps_one_millimeter_of_height() {
    let generator = Generator::new();
    let mut config = request(BarcodeFormat::Code39, "HELLO");
    config.texts.push(style(TextPosition::Upper, 1_000));
    // One millimeter at 300 dots per inch: 11.8 pixels.
    assert_eq!(generator.target_size(&config, 300), (573, 12));
    config.texts.push(style(TextPosition::Upper, u32::MAX));
    assert_eq!(generator.target_size(&config, 300), (573, 12));
}

#[test]
fn target_size_is_at_least_one_pixel() {
    let generator = Generator::new();
    let mut config = request(BarcodeFormat::Code39, "HELLO");
    config.dimensions = config.dimensions.resize_width_mm(0).resize_height_mm(0);
    assert_eq!(generator.target_size(&config, 300), (1, 1));
    assert_eq!(generator.target_size(&config, 1), (1, 1));
}

#[test]
fn sizing_brings_the_symbol_to_the_target_size() {
    let generator = Generator::new();
    let config = request(BarcodeFormat::Code39, "HELLO");
    let raw = numbered(10, 4);
    let sized = generator.size_barcode(&raw, &config, 300).unwrap();
    assert_eq!(sized.dimensions(), (573, 200));
    assert_eq!(sized.pixels(), raw.resized(573, 200).pixels());
}

#[test]
fn sizing_applies_the_percentages_first() {
    let generator = Generator::new();
    let mut config = request(BarcodeFormat::Code39, "HELLO");
    config.dimensions = config
        .dimensions
        .resize_width_percentage(50)
        .resize_height_percentage(200)
        .resize_width_mm(2_540)
        .resize_height_mm(2_540);
    let raw = numbered(8, 4);
    let sized = generator.size_barcode(&raw, &config, 100).unwrap();
    assert_eq!(sized.dimensions(), (10, 10));
    let expected = raw.resized(4, 4).resized(4, 8).resized(10, 10);
    assert_eq!(sized.pixels(), expected.pixels());
}

#[test]
fn sizing_refuses_what_does_not_fit() {
    let generator = Generator::new();
    let mut config = request(BarcodeFormat::Code39, "HELLO");
    config.dimensions = config.dimensions.resize_width_mm(u32::MAX).resize_height_mm(u32::MAX);
    let raw = numbered(8, 4);
    assert_eq!(
        generator.size_barcode(&raw, &config, u32::MAX).unwrap_err(),
        GenerationError::ImageTooLarge
    );
}

#[test]
fn barcode_without_texts_has_the_target_size() {
    let generator = Generator::new();
    let config = request(BarcodeFormat::Code39, "HELLO");
    let barcode = generator
        .finish_barcode(Some(striped(40, 10)), "HELLO", config, "out/HELLO.png", 150)
        .unwrap();
    assert_eq!(barcode.value, "HELLO");
    assert_eq!(barcode.file_path, "out/HELLO.png");
    // 48.5 mm and 16.9 mm at 150 dots per inch: 286.4 and 99.8 pixels.
    assert_eq!(barcode.buffer.dimensions(), (286, 100));
    let raw = Bitmap::from_pixels(40, 10, striped(40, 10).pixels).unwrap();
    assert_eq!(barcode.buffer.pixels(), raw.resized(286, 100).pixels());
    assert!(barcode.buffer.pixels().iter().any(|&level| level == 0));
    assert!(barcode.buffer.pixels().iter().any(|&level| level == 255));
}

#[test]
fn barcode_at_the_default_resolution() {
    let generator = Generator::new();
    let config = request(BarcodeFormat::Code128, "ABC-123");
    let barcode =
        generator.finish_barcode(Some(striped(20, 20)), "ABC-123", config, "label.png", 300).unwrap();
    assert_eq!(barcode.buffer.dimensions(), (573, 200));
    assert_eq!(barcode.value, "ABC-123");
}

#[test]
fn barcode_grows_by_the_rooms_of_its_texts() {
    let generator = Generator::new();
    let mut config = request(BarcodeFormat::Code39, "HELLO");
    config.texts.push(style(TextPosition::UpperCenter, 20));
    config.texts.push(style(TextPosition::LowerCenter, 20));
    let barcode = generator
        .finish_barcode(Some(RawSymbol { width: 2, height: 2, pixels: vec![0; 4] }), "HELLO", config, "x.png", 300)
        .unwrap();
    // The symbol is 573 by 150; each text adds its size and 10 rows.
    assert_eq!(barcode.buffer.dimensions(), (573, 210));
    for x in [0u32, 286, 572] {
        for y in 0..30 {
            assert_eq!(barcode.buffer.get_pixel(x, y), 255);
        }
        for y in 30..180 {
            assert_eq!(barcode.buffer.get_pixel(x, y), 0);
        }
        for y in 180..210 {
            assert_eq!(barcode.buffer.get_pixel(x, y), 255);
        }
    }
}

#[test]
fn one_upper_text_adds_its_room_above_the_symbol() {
    let generator = Generator::new();
    let mut config = request(BarcodeFormat::Code39, "HELLO");
    config.texts.push(style(TextPosition::Upper, 20));
    let target = generator.target_size(&config, 300);
    assert_eq!(target, (573, 175));
    let barcode = generator
        .finish_barcode(Some(RawSymbol { width: 1, height: 1, pixels: vec![0] }), "HELLO", config, "x.png", 300)
        .unwrap();
    assert_eq!(barcode.buffer.dimensions(), (573, 175 + 20 + 10));
    assert_eq!(barcode.buffer.get_pixel(0, 29), 255);
    assert_eq!(barcode.buffer.get_pixel(0, 30), 0);
    assert_eq!(barcode.buffer.get_pixel(572, 204), 0);
}

#[test]
fn text_that_is_not_printed_adds_no_room() {
    let generator = Generator::new();
    let mut config = request(BarcodeFormat::Code39, "HELLO");
    config.texts.push(style(TextPosition::NoText, 20));
    let barcode =
        generator.finish_barcode(Some(striped(20, 20)), "HELLO", config, "x.png", 300).unwrap();
    assert_eq!(barcode.buffer.dimensions(), (573, 200));
}

#[test]
fn rooms_are_laid_around_a_sized_symbol() {
    let generator = Generator::new();
    let sized = numbered(4, 2);
    let texts = vec![
        style(TextPosition::Upper, 0),
        style(TextPosition::NoText, 50),
        style(TextPosition::Lower, 1),
        style(TextPosition::UpperCenter, 2),
    ];
    assert_eq!(text_rooms(&texts), Some((33, 22)));
    let finished = generator.lay_text_rooms(&sized, &texts).unwrap();
    assert_eq!(finished.dimensions(), (4, 35));
    for y in 0..35 {
        for x in 0..4 {
            let expected =
                if (22..24).contains(&y) { sized.get_pixel(x, y - 22) } else { 255 };
            assert_eq!(finished.get_pixel(x, y), expected);
        }
    }
    let alone = generator.lay_text_rooms(&sized, &Vec::new()).unwrap();
    assert_eq!(alone.dimensions(), (4, 2));
    assert_eq!(alone.pixels(), sized.pixels());
    assert_eq!(text_rooms(&Vec::new()), Some((0, 0)));
}

#[test]
fn rooms_that_do_not_fit_are_refused() {
    let generator = Generator::new();
    let huge = vec![style(TextPosition::Upper, u32::MAX)];
    assert_eq!(text_rooms(&huge), None);
    assert_eq!(
        generator.lay_text_rooms(&numbered(4, 2), &huge).unwrap_err(),
        GenerationError::ImageTooLarge
    );
    let nearly = vec![style(TextPosition::Lower, u32::MAX - 11)];
    assert_eq!(text_rooms(&nearly), Some((u32::MAX - 1, 0)));
    assert_eq!(
        generator.lay_text_rooms(&numbered(4, 2), &nearly).unwrap_err(),
        GenerationError::ImageTooLarge
    );
    let mut config = request(BarcodeFormat::Code39, "HELLO");
    config.texts.push(style(TextPosition::Upper, u32::MAX));
    assert_eq!(
        generator.text_placements(&config, 300, &vec![10]).unwrap_err(),
        GenerationError::ImageTooLarge
    );
    assert_eq!(
        generator.finish_barcode(Some(striped(4, 4)), "HELLO", config, "x.png", 300).unwrap_err(),
        GenerationError::ImageTooLarge
    );
}

#[test]
fn texts_start_where_their_rooms_end_up() {
    let generator = Generator::new();
    let mut config = request(BarcodeFormat::Code39, "HELLO");
    config.texts.push(style(TextPosition::UpperCenter, 20));
    config.texts.push(style(TextPosition::Lower, 12));
    config.texts.push(style(TextPosition::Upper, 8));
    config.texts.push(style(TextPosition::NoText, 40));
    assert_eq!(generator.target_size(&config, 300), (573, 145));
    let places = generator.text_placements(&config, 300, &vec![100, 50, 60, 0]).unwrap();
    assert_eq!(
        places,
        vec![
            Some(TextPlacement { text_x: 236, text_y: 23 }),
            Some(TextPlacement { text_x: 10, text_y: 198 }),
            Some(TextPlacement { text_x: 10, text_y: 5 }),
            None,
        ]
    );
    let barcode =
        generator.finish_barcode(Some(RawSymbol { width: 1, height: 1, pixels: vec![0] }), "HELLO", config, "x.png", 300).unwrap();
    assert_eq!(barcode.buffer.dimensions(), (573, 215));
    assert_eq!(barcode.buffer.get_pixel(0, 47), 255);
    assert_eq!(barcode.buffer.get_pixel(0, 48), 0);
    assert_eq!(barcode.buffer.get_pixel(0, 192), 0);
    assert_eq!(barcode.buffer.get_pixel(0, 193), 255);
}

#[test]
fn centered_texts_wider_than_the_barcode_start_at_the_left() {
    let generator = Generator::new();
    let mut config = request(BarcodeFormat::Code39, "HELLO");
    config.texts.push(style(TextPosition::LowerCenter, 20));
    config.texts.push(style(TextPosition::LowerCenter, 20));
    let places = generator.text_placements(&config, 300, &vec![574, 573]).unwrap();
    assert_eq!(
        places,
        vec![
            Some(TextPlacement { text_x: 0, text_y: 155 }),
            Some(TextPlacement { text_x: 0, text_y: 185 }),
        ]
    );
    let none = generator.text_placements(&request(BarcodeFormat::Code39, "A"), 300, &Vec::new());
    assert!(none.unwrap().is_empty());
}

#[test]
fn generation_fails_with_the_error_of_the_payload() {
    let generator = Generator::new();
    let config = request(BarcodeFormat::UPCE, "123456789");
    assert_eq!(
        generator
            .finish_barcode(Some(striped(20, 20)), "123456789", config, "x.png", 300)
            .unwrap_err(),
        GenerationError::Encoding(EncodingError::UpceTooLong)
    );
}

#[test]
fn generation_fails_when_the_size_does_not_fit() {
    let generator = Generator::new();
    let mut config = request(BarcodeFormat::Code39, "HELLO");
    config.dimensions = config.dimensions.resize_width_mm(u32::MAX).resize_height_mm(u32::MAX);
    assert_eq!(
        generator
            .finish_barcode(Some(striped(20, 20)), "HELLO", config, "x.png", 100_000)
            .unwrap_err(),
        GenerationError::ImageTooLarge
    );
}

#[test]
fn svg_record_has_no_pixels() {
    let generator = Generator::new();
    let config = request(BarcodeFormat::Code39, "HELLO");
    let drawn = Some("<svg></svg>".to_string());
    let (barcode, svg) = generator.finish_svg(drawn, "HELLO", config, "hello.svg").unwrap();
    assert_eq!(svg, "<svg></svg>");
    assert_eq!(barcode.value, "HELLO");
    assert_eq!(barcode.file_path, "hello.svg");
    assert_eq!(barcode.buffer.dimensions(), (0, 0));
    let refused =
        generator.finish_svg(None, "not digits", request(BarcodeFormat::EAN13, "not digits"), "x.svg");
    assert_eq!(refused.unwrap_err(), GenerationError::Encoding(EncodingError::Rejected));
    let broken = generator.finish_svg(
        Some("<svg></svg>".to_string()),
        "123456789",
        request(BarcodeFormat::UPCE, "123456789"),
        "x.svg",
    );
    assert_eq!(broken.unwrap_err(), GenerationError::Encoding(EncodingError::UpceTooLong));
}

#[test]
fn pixel_density_follows_the_resolution() {
    assert_eq!(pixels_per_meter(300), 11_811);
    assert_eq!(pixels_per_meter(72), 2_834);
    assert_eq!(pixels_per_meter(0), 0);
    assert_eq!(pixels_per_meter(u32::MAX), u32::MAX);
}

#[test]
fn png_file_holds_the_pixels_and_the_density() {
    let generator = Generator::new();
    let image = numbered(6, 3);
    let file = generator.png_file(&image, 300).unwrap();
    let decoder = png::Decoder::new(std::io::Cursor::new(file));
    let mut reader = decoder.read_info().unwrap();
    let density = reader.info().pixel_dims.unwrap();
    assert_eq!(density.xppu, 11_811);
    assert_eq!(density.yppu, 11_811);
    assert!(matches!(density.unit, png::Unit::Meter));
    assert_eq!(reader.info().width, 6);
    assert_eq!(reader.info().height, 3);
    assert!(matches!(reader.info().color_type, png::ColorType::Grayscale));
    let mut pixels = vec![0u8; 18];
    reader.next_frame(&mut pixels).unwrap();
    assert_eq!(&pixels, image.pixels());
}

#[test]
fn png_file_of_an_empty_image_is_refused() {
    let generator = Generator::new();
    let image = Bitmap::new(0, 0, 0u8).unwrap();
    assert_eq!(generator.png_file(&image, 300).unwrap_err(), GenerationError::PngEncoding);
}

#[test]
fn text_that_is_not_printed_leaves_the_barcode() {
    let generator = Generator::new();
    let image = numbered(30, 10);
    let overlay =
        generator.prepare_text_overlay(image.duplicate(), &style(TextPosition::NoText, 20), 12);
    match overlay.unwrap() {
        TextOverlay::Unchanged(same) => {
            assert_eq!(same.dimensions(), (30, 10));
            assert_eq!(same.pixels(), image.pixels());
        }
        TextOverlay::Canvas { .. } => panic!("a canvas for no text"),
    }
}

#[test]
fn every_other_text_adds_its_size_and_ten_rows() {
    let generator = Generator::new();
    for position in [
        TextPosition::Upper,
        TextPosition::Lower,
        TextPosition::UpperCenter,
        TextPosition::LowerCenter,
    ] {
        for text_size in [0u32, 1, 20, 47] {
            let image = numbered(30, 10);
            let overlay =
                generator.prepare_text_overlay(image, &style(position, text_size), 12).unwrap();
            match overlay {
                TextOverlay::Canvas { canvas, .. } => {
                    assert_eq!(canvas.dimensions(), (30, 10 + text_size + 10));
                }
                TextOverlay::Unchanged(_) => panic!("no canvas for a text"),
            }
        }
    }
}

#[test]
fn text_above_moves_the_barcode_down() {
    let generator = Generator::new();
    let image = numbered(30, 10);
    let overlay = generator
        .prepare_text_overlay(image.duplicate(), &style(TextPosition::Upper, 20), 12)
        .unwrap();
    match overlay {
        TextOverlay::Canvas { canvas, text_x, text_y } => {
            assert_eq!((text_x, text_y), (10, 5));
            for y in 0..30 {
                for x in 0..30 {
                    assert_eq!(canvas.get_pixel(x, y), WHITE);
                }
            }
            for y in 0..10 {
                for x in 0..30 {
                    let level = image.get_pixel(x, y);
                    assert_eq!(
                        canvas.get_pixel(x, y + 30),
                        RgbWrapper { r: level, g: level, b: level }
                    );
                }
            }
        }
        TextOverlay::Unchanged(_) => panic!("no canvas for a text"),
    }
}

#[test]
fn text_below_leaves_the_barcode_at_the_top() {
    let generator = Generator::new();
    let image = numbered(30, 10);
    let overlay = generator
        .prepare_text_overlay(image.duplicate(), &style(TextPosition::Lower, 20), 12)
        .unwrap();
    match overlay {
        TextOverlay::Canvas { canvas, text_x, text_y } => {
            assert_eq!((text_x, text_y), (10, 15));
            for y in 0..10 {
                for x in 0..30 {
                    let level = image.get_pixel(x, y);
                    assert_eq!(canvas.get_pixel(x, y), RgbWrapper { r: level, g: level, b: level });
                }
            }
            for y in 10..40 {
                for x in 0..30 {
                    assert_eq!(canvas.get_pixel(x, y), WHITE);
                }
            }
        }
        TextOverlay::Unchanged(_) => panic!("no canvas for a text"),
    }
}

#[test]
fn centered_text_starts_at_half_the_leftover_width() {
    let generator = Generator::new();
    let upper = generator
        .prepare_text_overlay(numbered(30, 10), &style(TextPosition::UpperCenter, 20), 12)
        .unwrap();
    match upper {
        TextOverlay::Canvas { text_x, text_y, .. } => assert_eq!((text_x, text_y), (9, 5)),
        TextOverlay::Unchanged(_) => panic!("no canvas for a text"),
    }
    let lower = generator
        .prepare_text_overlay(numbered(30, 10), &style(TextPosition::LowerCenter, 20), 13)
        .unwrap();
    match lower {
        TextOverlay::Canvas { text_x, text_y, .. } => assert_eq!((text_x, text_y), (8, 15)),
        TextOverlay::Unchanged(_) => panic!("no canvas for a text"),
    }
    let wide = generator
        .prepare_text_overlay(numbered(30, 10), &style(TextPosition::LowerCenter, 20), 31)
        .unwrap();
    match wide {
        TextOverlay::Canvas { text_x, .. } => assert_eq!(text_x, 0),
        TextOverlay::Unchanged(_) => panic!("no canvas for a text"),
    }
}

#[test]
fn canvas_that_does_not_fit_is_refused() {
    let generator = Generator::new();
    let overlay =
        generator.prepare_text_overlay(numbered(30, 10), &style(TextPosition::Upper, u32::MAX), 12);
    assert_eq!(overlay.unwrap_err(), GenerationError::ImageTooLarge);
    let unchanged = generator.prepare_text_overlay(
        numbered(30, 10),
        &style(TextPosition::NoText, u32::MAX),
        12,
    );
    assert!(unchanged.is_ok());
}
