use rust_barcode_generator::image_editor::has_side;
use rust_barcode_generator::image_editor::scaled;
use rust_barcode_generator::image_editor::ImageEditor;
use rust_barcode_generator::image_editor::Side;
use rust_barcode_generator::raster::Bitmap;
use rust_barcode_generator::raster::RgbWrapper;

fn numbered(width: u32, height: u32) -> Bitmap<u8> {
    let pixels: Vec<u8> = (0..width * height).map(|i| i as u8).collect();
    Bitmap::from_pixels(width, height, pixels).unwrap()
}

#[test]
fn full_percentage_is_the_identity() {
    let editor = ImageEditor::new();
    let image = numbered(7, 5);
    let by_height = editor.resize_height_percentage(&image, 100);
    assert_eq!(by_height.dimensions(), image.dimensions());
    assert_eq!(by_height.pixels(), image.pixels());
    let by_width = editor.resize_width_percentage(&image, 100);
    assert_eq!(by_width.dimensions(), image.dimensions());
    assert_eq!(by_width.pixels(), image.pixels());
}

#[test]
fn full_percentage_is_the_identity_for_an_empty_image() {
    let editor = ImageEditor::new();
    let image = Bitmap::new(0, 3, 0u8).unwrap();
    assert_eq!(editor.resize_height_percentage(&image, 100).dimensions(), (0, 3));
    assert_eq!(editor.resize_width_percentage(&image, 100).dimensions(), (0, 3));
}

#[test]
fn percentage_scales_one_side() {
    let editor = ImageEditor::new();
    let image = numbered(4, 4);
    let half_height = editor.resize_height_percentage(&image, 50);
    assert_eq!(half_height.dimensions(), (4, 2));
    assert_eq!(half_height.pixels(), &vec![4u8, 5, 6, 7, 12, 13, 14, 15]);
    let half_width = editor.resize_width_percentage(&image, 50);
    assert_eq!(half_width.dimensions(), (2, 4));
    assert_eq!(half_width.pixels(), &vec![1u8, 3, 5, 7, 9, 11, 13, 15]);
    let double = editor.resize_width_percentage(&image, 200);
    assert_eq!(double.dimensions(), (8, 4));
}

#[test]
fn percentage_rounds_half_away_from_zero() {
    assert_eq!(scaled(5, 50), 3);
    assert_eq!(scaled(5, 49), 2);
    assert_eq!(scaled(200, 100), 200);
    assert_eq!(scaled(200, 0), 0);
    assert_eq!(scaled(3, 150), 5);
    assert_eq!(scaled(u32::MAX, 200), u32::MAX);
    let editor = ImageEditor::new();
    let image = numbered(5, 5);
    assert_eq!(editor.resize_height_percentage(&image, 50).dimensions(), (5, 3));
}

#[test]
fn zero_percent_gives_an_empty_image() {
    let editor = ImageEditor::new();
    let image = numbered(4, 4);
    assert_eq!(editor.resize_width_percentage(&image, 0).dimensions(), (0, 4));
    assert_eq!(editor.resize_height_percentage(&image, 0).dimensions(), (4, 0));
}

#[test]
fn resize_dimensions_gives_the_size_asked_for() {
    let editor = ImageEditor::new();
    let image = Bitmap::from_pixels(2, 1, vec![0u8, 255]).unwrap();
    let resized = editor.resize_dimensions(&image, 6, 2);
    assert_eq!(resized.dimensions(), (6, 2));
    assert_eq!(resized.pixels(), &vec![0u8, 0, 0, 255, 255, 255, 0, 0, 0, 255, 255, 255]);
}

#[test]
fn resize_to_a_physical_size() {
    let editor = ImageEditor::new();
    let image = numbered(4, 4);
    // 25.4 mm by 12.7 mm at 300 dots per inch.
    let resized = editor.resize_to_dimensions_mm(25_400, 12_700, &image);
    assert_eq!(resized.dimensions(), (300, 150));
}

#[test]
fn border_on_each_side() {
    let editor = ImageEditor::new();
    let mut left = Bitmap::new(3, 3, 0u8).unwrap();
    editor.add_border(&mut left, 1, 9, vec![Side::Left]);
    assert_eq!(left.pixels(), &vec![9u8, 0, 0, 9, 0, 0, 9, 0, 0]);
    let mut right = Bitmap::new(3, 3, 0u8).unwrap();
    editor.add_border(&mut right, 1, 9, vec![Side::Right]);
    assert_eq!(right.pixels(), &vec![0u8, 0, 9, 0, 0, 9, 0, 0, 9]);
    let mut top = Bitmap::new(3, 3, 0u8).unwrap();
    editor.add_border(&mut top, 1, 9, vec![Side::Top]);
    assert_eq!(top.pixels(), &vec![9u8, 9, 9, 0, 0, 0, 0, 0, 0]);
    let mut bottom = Bitmap::new(3, 3, 0u8).unwrap();
    editor.add_border(&mut bottom, 1, 9, vec![Side::Bottom]);
    assert_eq!(bottom.pixels(), &vec![0u8, 0, 0, 0, 0, 0, 9, 9, 9]);
}

#[test]
fn border_keeps_the_size_and_paints_over_content() {
    let editor = ImageEditor::new();
    let mut image = numbered(4, 3);
    editor.add_border(&mut image, 1, 255, vec![Side::Top, Side::Left]);
    assert_eq!(image.dimensions(), (4, 3));
    assert_eq!(image.pixels(), &vec![255u8, 255, 255, 255, 255, 5, 6, 7, 255, 9, 10, 11]);
}

#[test]
fn thick_border() {
    let editor = ImageEditor::new();
    let mut image = Bitmap::new(4, 4, 0u8).unwrap();
    editor.add_border(&mut image, 2, 1, vec![Side::Right, Side::Bottom]);
    assert_eq!(image.pixels(), &vec![0u8, 0, 1, 1, 0, 0, 1, 1, 1, 1, 1, 1, 1, 1, 1, 1]);
    let mut all = Bitmap::new(2, 2, 0u8).unwrap();
    editor.add_border(&mut all, 5, 3, vec![Side::Left]);
    assert_eq!(all.pixels(), &vec![3u8; 4]);
    let mut far = Bitmap::new(2, 2, 0u8).unwrap();
    editor.add_border(&mut far, u32::MAX, 3, vec![Side::Bottom]);
    assert_eq!(far.pixels(), &vec![3u8; 4]);
}

#[test]
fn border_without_sides_or_thickness_changes_nothing() {
    let editor = ImageEditor::new();
    let mut image = numbered(3, 2);
    editor.add_border(&mut image, 1, 200, vec![]);
    assert_eq!(image.pixels(), &vec![0u8, 1, 2, 3, 4, 5]);
    editor.add_border(&mut image, 0, 200, vec![Side::Left, Side::Right, Side::Top, Side::Bottom]);
    assert_eq!(image.pixels(), &vec![0u8, 1, 2, 3, 4, 5]);
}

#[test]
fn border_applied_twice_is_the_border_applied_once() {
    let editor = ImageEditor::new();
    for sides in [
        vec![Side::Left],
        vec![Side::Right],
        vec![Side::Top],
        vec![Side::Bottom],
        vec![Side::Top, Side::Bottom],
        vec![Side::Left, Side::Right, Side::Top, Side::Bottom],
    ] {
        for thickness in 0..4 {
            let mut once = numbered(5, 4);
            editor.add_border(&mut once, thickness, 77, sides.clone());
            let mut twice = once.duplicate();
            editor.add_border(&mut twice, thickness, 77, sides.clone());
            assert_eq!(once.pixels(), twice.pixels());
        }
    }
}

#[test]
fn border_on_a_colored_image() {
    let editor = ImageEditor::new();
    let white = RgbWrapper { r: 255, g: 255, b: 255 };
    let gray = RgbWrapper { r: 211, g: 211, b: 211 };
    let mut image = Bitmap::new(2, 2, white).unwrap();
    editor.add_border(&mut image, 1, gray, vec![Side::Bottom]);
    assert_eq!(image.pixels(), &vec![white, white, gray, gray]);
}

#[test]
fn border_on_an_empty_image() {
    let editor = ImageEditor::new();
    let mut image = Bitmap::new(0, 0, 0u8).unwrap();
    editor.add_border(&mut image, 1, 1, vec![Side::Left]);
    assert_eq!(image.count(), 0);
}

#[test]
fn side_is_found_in_a_list() {
    assert!(has_side(&vec![Side::Top, Side::Left], Side::Left));
    assert!(!has_side(&vec![Side::Top, Side::Left], Side::Right));
    assert!(!has_side(&vec![], Side::Top));
}
