use pixel_pipeline::buffer::{create, PixelBuffer};
use pixel_pipeline::decode::decode;
use pixel_pipeline::error::PipelineError;
use pixel_pipeline::filter::apply_filter;
use pixel_pipeline::flip::flip_horizontal;

fn buffer_from(width: u32, height: u32, pixels: Vec<u8>) -> PixelBuffer {
    assert_eq!(pixels.len(), (width as usize) * (height as usize) * 4);
    PixelBuffer { width, height, pixels }
}

fn encode_png(width: u32, height: u32, pixels: &[u8]) -> Vec<u8> {
    let img = image::RgbaImage::from_raw(width, height, pixels.to_vec()).unwrap();
    let mut bytes: Vec<u8> = Vec::new();
    img.write_to(&mut std::io::Cursor::new(&mut bytes), image::ImageFormat::Png).unwrap();
    bytes
}

#[test]
fn create_allocates_zeroed_buffer() {
    let b = create(2, 3).unwrap();
    assert_eq!(b.width, 2);
    assert_eq!(b.height, 3);
    assert_eq!(b.pixels.len(), 2 * 3 * 4);
    assert!(b.pixels.iter().all(|&px| px == 0));
}

#[test]
fn create_zero_sized() {
    let b = create(0, 7).unwrap();
    assert_eq!(b.pixels.len(), 0);
}

#[test]
fn create_overflow_is_allocation_error() {
    assert_eq!(create(u32::MAX, u32::MAX), Err(PipelineError::Allocation));
}

#[test]
fn flip_swaps_two_pixels() {
    let red = [255u8, 0, 0, 255];
    let blue = [0u8, 0, 255, 255];
    let mut pixels = Vec::new();
    pixels.extend_from_slice(&red);
    pixels.extend_from_slice(&blue);
    let mut b = buffer_from(2, 1, pixels);
    flip_horizontal(&mut b);
    assert_eq!(b.width, 2);
    assert_eq!(b.height, 1);
    assert_eq!(&b.pixels[0..4], &blue);
    assert_eq!(&b.pixels[4..8], &red);
}

#[test]
fn flip_twice_restores_buffer() {
    let pixels: Vec<u8> = (0u8..24u8).collect();
    let original = buffer_from(3, 2, pixels);
    let mut b = original.clone();
    flip_horizontal(&mut b);
    assert_ne!(b, original);
    flip_horizontal(&mut b);
    assert_eq!(b, original);
}

#[test]
fn flip_keeps_rows_in_order() {
    // 1x2: a single column; flipping mirrors each row onto itself.
    let pixels: Vec<u8> = vec![1, 2, 3, 4, 5, 6, 7, 8];
    let original = buffer_from(1, 2, pixels);
    let mut b = original.clone();
    flip_horizontal(&mut b);
    assert_eq!(b, original);
}

#[test]
fn flip_zero_sized_is_noop() {
    let mut b = buffer_from(0, 0, Vec::new());
    flip_horizontal(&mut b);
    assert_eq!(b.width, 0);
    assert_eq!(b.height, 0);
    assert!(b.pixels.is_empty());
}

#[test]
fn decode_malformed_bytes_is_decode_error() {
    assert_eq!(decode(&vec![1u8, 2, 3]), Err(PipelineError::Decode));
}

#[test]
fn decode_empty_bytes_is_decode_error() {
    assert_eq!(decode(&Vec::new()), Err(PipelineError::Decode));
}

#[test]
fn decode_png_returns_exact_pixels() {
    let raw = [255u8, 0, 0, 255, 0, 0, 255, 255];
    let png = encode_png(2, 1, &raw);
    let b = decode(&png).unwrap();
    assert_eq!(b.width, 2);
    assert_eq!(b.height, 1);
    assert_eq!(b.pixels, raw.to_vec());
}

#[test]
fn decode_then_flip_reverses_pixel_order() {
    let red = [255u8, 0, 0, 255];
    let blue = [0u8, 0, 255, 255];
    let mut raw = Vec::new();
    raw.extend_from_slice(&red);
    raw.extend_from_slice(&blue);
    let png = encode_png(2, 1, &raw);
    let mut b = decode(&png).unwrap();
    flip_horizontal(&mut b);
    assert_eq!((b.width, b.height), (2, 1));
    assert_eq!(&b.pixels[0..4], &blue);
    assert_eq!(&b.pixels[4..8], &red);
}

#[test]
fn filter_twenties_remaps_channels() {
    // One grey pixel (100, 100, 100, 255): the preset averages the colour
    // channels (avg 100) and adds the offsets 18, 12 and 20; alpha stays.
    let mut b = buffer_from(1, 1, vec![100, 100, 100, 255]);
    apply_filter(&mut b, "twenties").unwrap();
    assert_eq!(b.width, 1);
    assert_eq!(b.height, 1);
    assert_eq!(b.pixels, vec![118, 112, 120, 255]);
}

#[test]
fn filter_twenties_saturates_bright_pixels() {
    // avg 255 stays 255 and every offset saturates at 255.
    let mut b = buffer_from(1, 1, vec![255, 255, 255, 7]);
    apply_filter(&mut b, "twenties").unwrap();
    assert_eq!(b.pixels, vec![255, 255, 255, 7]);
}

#[test]
fn filter_is_deterministic() {
    let pixels: Vec<u8> = (0u8..16u8).collect();
    let mut first = buffer_from(2, 2, pixels.clone());
    let mut second = buffer_from(2, 2, pixels.clone());
    apply_filter(&mut first, "twenties").unwrap();
    apply_filter(&mut second, "twenties").unwrap();
    assert_eq!(first, second);
    assert_ne!(first.pixels, pixels);
}

#[test]
fn filter_unknown_name_leaves_buffer_unmodified() {
    let pixels: Vec<u8> = (0u8..16u8).collect();
    let original = buffer_from(1, 4, pixels);
    let mut b = original.clone();
    assert_eq!(apply_filter(&mut b, "nonexistent"), Err(PipelineError::UnknownFilter));
    assert_eq!(b, original);
}
