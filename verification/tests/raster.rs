use rust_barcode_generator::raster::size_fits_memory;
use rust_barcode_generator::raster::Bitmap;
use rust_barcode_generator::raster::RgbWrapper;

fn numbered(width: u32, height: u32) -> Bitmap<u8> {
    let pixels: Vec<u8> = (0..width * height).map(|i| i as u8).collect();
    Bitmap::from_pixels(width, height, pixels).unwrap()
}

#[test]
fn new_bitmap_is_filled() {
    let bitmap = Bitmap::new(3, 2, 7u8).unwrap();
    assert_eq!(bitmap.dimensions(), (3, 2));
    assert_eq!(bitmap.width(), 3);
    assert_eq!(bitmap.height(), 2);
    assert_eq!(bitmap.count(), 6);
    assert_eq!(bitmap.pixels(), &vec![7u8; 6]);
}

#[test]
fn empty_bitmap_is_allowed() {
    let bitmap = Bitmap::new(0, 0, 0u8).unwrap();
    assert_eq!(bitmap.dimensions(), (0, 0));
    assert_eq!(bitmap.count(), 0);
    let flat = Bitmap::new(5, 0, 0u8).unwrap();
    assert_eq!(flat.dimensions(), (5, 0));
    assert_eq!(flat.count(), 0);
}

#[test]
fn oversized_bitmap_is_refused() {
    assert!(!size_fits_memory(u32::MAX, u32::MAX));
    assert!(size_fits_memory(2480, 3508));
    assert!(size_fits_memory(u32::MAX, 0));
    assert!(Bitmap::from_pixels(u32::MAX, u32::MAX, Vec::<u8>::new()).is_none());
}

#[test]
fn from_pixels_checks_the_count() {
    assert!(Bitmap::from_pixels(2, 2, vec![1u8, 2, 3]).is_none());
    assert!(Bitmap::from_pixels(2, 2, vec![1u8, 2, 3, 4, 5]).is_none());
    let bitmap = Bitmap::from_pixels(2, 2, vec![1u8, 2, 3, 4]).unwrap();
    assert_eq!(bitmap.get_pixel(0, 0), 1);
    assert_eq!(bitmap.get_pixel(1, 0), 2);
    assert_eq!(bitmap.get_pixel(0, 1), 3);
    assert_eq!(bitmap.get_pixel(1, 1), 4);
}

#[test]
fn put_pixel_changes_one_pixel() {
    let mut bitmap = numbered(3, 3);
    bitmap.put_pixel(2, 1, 99);
    assert_eq!(bitmap.pixels(), &vec![0u8, 1, 2, 3, 4, 99, 6, 7, 8]);
    bitmap.put_at(0, 42);
    assert_eq!(bitmap.pixels(), &vec![42u8, 1, 2, 3, 4, 99, 6, 7, 8]);
}

#[test]
fn duplicate_is_equal_and_separate() {
    let source = numbered(4, 2);
    let mut copy = source.duplicate();
    assert_eq!(copy.pixels(), source.pixels());
    copy.put_pixel(0, 0, 200);
    assert_eq!(source.get_pixel(0, 0), 0);
    assert_eq!(copy.get_pixel(0, 0), 200);
}

#[test]
fn paste_inside() {
    let mut bottom = Bitmap::new(4, 3, 0u8).unwrap();
    let top = Bitmap::from_pixels(2, 2, vec![1u8, 2, 3, 4]).unwrap();
    bottom.paste(&top, 1, 1);
    assert_eq!(bottom.dimensions(), (4, 3));
    assert_eq!(bottom.pixels(), &vec![0u8, 0, 0, 0, 0, 1, 2, 0, 0, 3, 4, 0]);
}

#[test]
fn paste_is_cut_at_the_edges() {
    let mut bottom = Bitmap::new(3, 3, 0u8).unwrap();
    let top = Bitmap::from_pixels(2, 2, vec![1u8, 2, 3, 4]).unwrap();
    bottom.paste(&top, 2, 2);
    assert_eq!(bottom.pixels(), &vec![0u8, 0, 0, 0, 0, 0, 0, 0, 1]);
    let mut other = Bitmap::new(3, 3, 9u8).unwrap();
    other.paste(&top, 3, 0);
    assert_eq!(other.pixels(), &vec![9u8; 9]);
    other.paste(&top, 0, 3);
    assert_eq!(other.pixels(), &vec![9u8; 9]);
    other.paste(&top, u32::MAX, u32::MAX);
    assert_eq!(other.pixels(), &vec![9u8; 9]);
}

#[test]
fn paste_of_a_larger_bitmap_covers_everything() {
    let mut bottom = Bitmap::new(2, 2, 0u8).unwrap();
    let top = numbered(3, 3);
    bottom.paste(&top, 0, 0);
    assert_eq!(bottom.pixels(), &vec![0u8, 1, 3, 4]);
}

#[test]
fn paste_of_an_empty_bitmap_changes_nothing() {
    let mut bottom = numbered(2, 2);
    let top = Bitmap::new(0, 5, 1u8).unwrap();
    bottom.paste(&top, 0, 0);
    assert_eq!(bottom.pixels(), &vec![0u8, 1, 2, 3]);
}

#[test]
fn gray_becomes_color() {
    let gray = Bitmap::from_pixels(2, 1, vec![0u8, 211]).unwrap();
    let colored = gray.to_rgb();
    assert_eq!(colored.dimensions(), (2, 1));
    assert_eq!(colored.get_pixel(0, 0), RgbWrapper { r: 0, g: 0, b: 0 });
    assert_eq!(colored.get_pixel(1, 0), RgbWrapper { r: 211, g: 211, b: 211 });
}

#[test]
fn color_bytes_are_in_channel_order() {
    let pixels = vec![RgbWrapper { r: 1, g: 2, b: 3 }, RgbWrapper { r: 4, g: 5, b: 6 }];
    let bitmap = Bitmap::from_pixels(1, 2, pixels).unwrap();
    assert_eq!(bitmap.to_bytes(), vec![1u8, 2, 3, 4, 5, 6]);
}

#[test]
fn resize_enlarges_by_repeating_pixels() {
    let small = Bitmap::from_pixels(2, 2, vec![10u8, 20, 30, 40]).unwrap();
    let large = small.resized(4, 4);
    assert_eq!(large.dimensions(), (4, 4));
    assert_eq!(
        large.pixels(),
        &vec![10u8, 10, 20, 20, 10, 10, 20, 20, 30, 30, 40, 40, 30, 30, 40, 40]
    );
}

#[test]
fn resize_shrinks_by_picking_pixels() {
    let large = numbered(4, 4);
    let small = large.resized(2, 2);
    assert_eq!(small.dimensions(), (2, 2));
    assert_eq!(small.pixels(), &vec![5u8, 7, 13, 15]);
}

#[test]
fn resize_to_nothing_and_from_nothing() {
    let image = numbered(3, 3);
    let none = image.resized(0, 4);
    assert_eq!(none.dimensions(), (0, 4));
    assert_eq!(none.count(), 0);
    let empty = Bitmap::new(0, 0, 0u8).unwrap();
    let grown = empty.resized(2, 2);
    assert_eq!(grown.dimensions(), (2, 2));
    assert_eq!(grown.count(), 4);
}
