use image::png::PNGEncoder;
use image::ColorType;

use space_boss_battles::texture::{png_header_accepted, texture_image_from_decoded, texture_image_from_png, PngColor, TextureError};

fn png(data: &[u8], width: u32, height: u32, color: ColorType) -> Vec<u8> {
    let mut bytes = Vec::new();
    PNGEncoder::new(&mut bytes).encode(data, width, height, color).unwrap();
    bytes
}

#[test]
fn rgba_png_gives_rgba_texture() {
    let data = [1, 2, 3, 4, 5, 6, 7, 8];
    let image = texture_image_from_png(&png(&data, 2, 1, ColorType::RGBA(8))).ok().unwrap();
    assert_eq!((image.width, image.height, image.rgba), (2, 1, true));
    assert_eq!(image.data, data.to_vec());
}

#[test]
fn rgb_png_gives_rgb_texture() {
    let data = [9, 8, 7, 6, 5, 4];
    let image = texture_image_from_png(&png(&data, 1, 2, ColorType::RGB(8))).ok().unwrap();
    assert_eq!((image.width, image.height, image.rgba), (1, 2, false));
    assert_eq!(image.data, data.to_vec());
}

#[test]
fn gray_png_is_refused_before_decoding() {
    let result = texture_image_from_png(&png(&[1, 2], 2, 1, ColorType::Gray(8)));
    assert_eq!(result.err(), Some(TextureError::UnsupportedHeader));
}

#[test]
fn indexed_png_without_palette_is_refused_before_decoding() {
    let bytes = png(&[0, 1], 2, 1, ColorType::Palette(8));
    assert!(!png_header_accepted(&bytes));
    assert_eq!(texture_image_from_png(&bytes).err(), Some(TextureError::UnsupportedHeader));
}

#[test]
fn header_checks() {
    let rgb = png(&[1, 2, 3], 1, 1, ColorType::RGB(8));
    assert!(png_header_accepted(&rgb));
    // A header of 5000 x 5000 pixels is too large.
    let mut large = rgb.clone();
    large[16..24].copy_from_slice(&[0, 0, 0x13, 0x88, 0, 0, 0x13, 0x88]);
    assert!(!png_header_accepted(&large));
    assert_eq!(texture_image_from_png(&large).err(), Some(TextureError::UnsupportedHeader));
    // Too short to hold a chunk: handed to the decoder, which refuses it.
    assert!(png_header_accepted(&rgb[..12]));
}

#[test]
fn other_bytes_do_not_decode() {
    assert_eq!(texture_image_from_png(&[1, 2, 3]).err(), Some(TextureError::Decode));
    assert_eq!(texture_image_from_png(&[]).err(), Some(TextureError::Decode));
}

#[test]
fn decoded_results_give_their_textures() {
    assert_eq!(texture_image_from_decoded(None).err(), Some(TextureError::Decode));
    assert_eq!(
        texture_image_from_decoded(Some((1, 1, PngColor::Rgb, None))).err(),
        Some(TextureError::UnsupportedData)
    );
    let image = texture_image_from_decoded(Some((1, 1, PngColor::Rgba, Some(vec![1, 2, 3, 4])))).ok().unwrap();
    assert!(image.rgba);
}
