use rust_barcode_generator::barcode_config::BarcodeConfigBuilder;
use rust_barcode_generator::barcode_config::BarcodeConfigInternal;
use rust_barcode_generator::barcode_config::BarcodeDimensions;
use rust_barcode_generator::barcode_config::BarcodeFormat;
use rust_barcode_generator::barcode_config::BarcodeFormatWrapper;
use rust_barcode_generator::barcode_config::TextPosition;
use rust_barcode_generator::barcode_config::FORMAT_COUNT;
use rust_barcode_generator::raster::RgbWrapper;

#[test]
fn default_dimensions() {
    let dimensions = BarcodeDimensions::new();
    assert_eq!(dimensions.height_percentage, 100);
    assert_eq!(dimensions.width_percentage, 100);
    assert_eq!(dimensions.width_micrometers, 48_500);
    assert_eq!(dimensions.height_micrometers, 16_900);
}

#[test]
fn each_dimension_setter_changes_one_field() {
    let dimensions = BarcodeDimensions::new();
    assert_eq!(
        dimensions.resize_height_mm(20_000),
        BarcodeDimensions { height_micrometers: 20_000, ..dimensions }
    );
    assert_eq!(
        dimensions.resize_width_mm(30_000),
        BarcodeDimensions { width_micrometers: 30_000, ..dimensions }
    );
    assert_eq!(
        dimensions.resize_height_percentage(50),
        BarcodeDimensions { height_percentage: 50, ..dimensions }
    );
    assert_eq!(
        dimensions.resize_width_percentage(150),
        BarcodeDimensions { width_percentage: 150, ..dimensions }
    );
    assert_eq!(dimensions, BarcodeDimensions::new());
}

#[test]
fn builder_starts_from_the_default_request() {
    let config = BarcodeConfigBuilder::new().build();
    assert_eq!(config.format.format, "Code128");
    assert!(config.texts.is_empty());
    assert_eq!(config.scale, 10);
    assert!(config.quiet_zones);
    assert_eq!(config.dimensions, BarcodeDimensions::new());
    assert_eq!(config.data, "");
}

#[test]
fn builder_steps_return_new_builders() {
    let first = BarcodeConfigBuilder::new();
    let second = first.set_format(BarcodeFormat::QRCode).set_scale(3);
    let third = second.resize_height_percentage(80).resize_width_percentage(120);
    assert_eq!(first.build().format.format, "Code128");
    assert_eq!(first.build().scale, 10);
    assert_eq!(second.build().format.format, "QRCode");
    assert_eq!(second.build().scale, 3);
    assert_eq!(second.build().dimensions, BarcodeDimensions::new());
    assert_eq!(third.build().dimensions.height_percentage, 80);
    assert_eq!(third.build().dimensions.width_percentage, 120);
    assert_eq!(third.build().format.format, "QRCode");
}

#[test]
fn builder_adds_texts_in_order() {
    let red = RgbWrapper { r: 255, g: 0, b: 0 };
    let blue = RgbWrapper { r: 0, g: 0, b: 255 };
    let builder = BarcodeConfigBuilder::new()
        .add_text("above", red, 20, TextPosition::UpperCenter)
        .add_text("below", blue, 12, TextPosition::Lower);
    let config = builder.build();
    assert_eq!(config.texts.len(), 2);
    assert_eq!(config.texts[0].text, "above");
    assert_eq!(config.texts[0].text_color, red);
    assert_eq!(config.texts[0].text_size, 20);
    assert_eq!(config.texts[0].text_position, TextPosition::UpperCenter);
    assert_eq!(config.texts[0].font, "DejaVuSans");
    assert_eq!(config.texts[0].margin, 5);
    assert_eq!(config.texts[1].text, "below");
    assert_eq!(config.texts[1].text_color, blue);
    assert_eq!(config.texts[1].text_size, 12);
    assert_eq!(config.texts[1].text_position, TextPosition::Lower);
}

#[test]
fn every_format_is_found_under_its_name() {
    for index in 0..FORMAT_COUNT {
        let format = BarcodeFormat::at(index);
        assert_eq!(BarcodeFormat::from_name(format.name()), format);
        let wrapper = BarcodeFormatWrapper::from_format(format);
        assert_eq!(wrapper.format, format.name());
        assert_eq!(wrapper.to_format(), format);
    }
}

#[test]
fn format_names() {
    assert_eq!(BarcodeFormat::Code128.name(), "Code128");
    assert_eq!(BarcodeFormat::DataBarExpanded.name(), "DataBarExpanded");
    assert_eq!(BarcodeFormat::DataBarExpanded.encoder_name(), "DataBarExp");
    assert_eq!(BarcodeFormat::DataBarLimited.encoder_name(), "DataBarLtd");
    assert_eq!(BarcodeFormat::LinearCodes.encoder_name(), "AllLinear");
    assert_eq!(BarcodeFormat::MatrixCodes.encoder_name(), "AllMatrix");
    assert_eq!(BarcodeFormat::Any.encoder_name(), "All");
    assert_eq!(BarcodeFormat::NoFormat.name(), "None");
    assert_eq!(BarcodeFormat::NoFormat.encoder_name(), "None");
    assert_eq!(BarcodeFormat::UPCE.encoder_name(), "UPCE");
    assert_eq!(BarcodeFormat::at(0), BarcodeFormat::Code128);
    assert_eq!(BarcodeFormat::at(23), BarcodeFormat::NoFormat);
}

#[test]
fn unknown_name_stands_for_code128() {
    assert_eq!(BarcodeFormat::from_name("NoSuchFormat"), BarcodeFormat::Code128);
    assert_eq!(BarcodeFormat::from_name(""), BarcodeFormat::Code128);
    assert_eq!(BarcodeFormat::from_name("code39"), BarcodeFormat::Code128);
    let wrapper = BarcodeFormatWrapper { format: "qrcode".to_string() };
    assert_eq!(wrapper.to_format(), BarcodeFormat::Code128);
}

#[test]
fn resolving_a_request_keeps_everything_but_the_format() {
    let red = RgbWrapper { r: 255, g: 0, b: 0 };
    let mut config = BarcodeConfigBuilder::new()
        .set_format(BarcodeFormat::EAN13)
        .set_scale(4)
        .add_text("label", red, 14, TextPosition::Upper)
        .resize_width_percentage(90)
        .build();
    config.data = "5901234123457".to_string();
    config.quiet_zones = false;
    let internal = BarcodeConfigInternal::from_config(config.clone());
    assert_eq!(internal.format, BarcodeFormat::EAN13);
    assert_eq!(internal.scale, 4);
    assert!(!internal.quiet_zones);
    assert_eq!(internal.dimensions, config.dimensions);
    assert_eq!(internal.data, "5901234123457");
    assert_eq!(internal.texts.len(), 1);
    assert_eq!(internal.texts[0].text, "label");
    assert_eq!(internal.texts[0].text_size, 14);
}

#[test]
fn conversions_between_the_wrapper_and_the_format() {
    let wrapper = BarcodeFormatWrapper::from(BarcodeFormat::DataMatrix);
    assert_eq!(wrapper.format, "DataMatrix");
    let format: BarcodeFormat = wrapper.into();
    assert_eq!(format, BarcodeFormat::DataMatrix);
    let unknown: BarcodeFormat = BarcodeFormatWrapper { format: "Anything".to_string() }.into();
    assert_eq!(unknown, BarcodeFormat::Code128);
    let mut config = BarcodeConfigBuilder::new().set_format(BarcodeFormat::Codabar).build();
    config.data = "A123B".to_string();
    let internal: BarcodeConfigInternal = config.into();
    assert_eq!(internal.format, BarcodeFormat::Codabar);
    assert_eq!(internal.data, "A123B");
}
