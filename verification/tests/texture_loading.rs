//! Texture loading against real encoded images.

use std::io::Cursor;

use water_scene::texture::Texture;
use water_scene::texture::TextureFormat;

/// Encodes a width x height RGBA image as PNG bytes, with one marker
/// pixel at the origin.
fn encoded_png(width: u32, height: u32, marker: [u8; 4]) -> Vec<u8> {
    let mut img = image::RgbaImage::new(width, height);
    img.put_pixel(0, 0, image::Rgba(marker));
    let mut bytes: Vec<u8> = Vec::new();
    image::DynamicImage::ImageRgba8(img)
        .write_to(&mut Cursor::new(&mut bytes), image::ImageOutputFormat::Png)
        .unwrap();
    bytes
}

#[test]
fn texture_dimensions_match_decoded_image() {
    let bytes = encoded_png(256, 256, [0, 0, 0, 255]);
    let t = Texture::from_bytes(&bytes).unwrap();
    assert_eq!(t.desc.width, 256);
    assert_eq!(t.desc.height, 256);
    assert_eq!(t.pixels.len(), 4 * 256 * 256);
}

#[test]
fn texture_holds_decoded_pixels_not_input_bytes() {
    let bytes = encoded_png(3, 2, [10, 20, 30, 255]);
    let t = Texture::from_bytes(&bytes).unwrap();
    assert_eq!(t.desc.width, 3);
    assert_eq!(t.desc.height, 2);
    assert_eq!(t.pixels.len(), 4 * 3 * 2);
    // The decoded buffer starts with the marker pixel, which the PNG
    // byte stream itself does not.
    assert_eq!(&t.pixels[0..4], &[10, 20, 30, 255]);
    assert_ne!(t.pixels, bytes);
}

#[test]
fn texture_descriptor_and_sampler_are_canonical() {
    let bytes = encoded_png(4, 4, [0, 0, 0, 0]);
    let t = Texture::from_bytes(&bytes).unwrap();
    assert_eq!(t.desc.format, TextureFormat::Rgba8UnormSrgb);
    assert_eq!(t.desc.mip_level_count, 1);
    assert_eq!(t.desc.sample_count, 1);
    assert!(t.desc.usage.texture_binding);
    assert!(t.desc.usage.copy_dst);
    assert!(!t.desc.usage.copy_src);
    assert!(!t.desc.usage.render_attachment);
    assert_eq!(t.bytes_per_row, 16);
    let s = t.sampler;
    assert_eq!(s, water_scene::texture::make_scene_sampler());
    assert_eq!(s.mag_filter, water_scene::texture::FilterMode::Linear);
    assert_eq!(s.min_filter, water_scene::texture::FilterMode::Nearest);
    assert_eq!(s.mipmap_filter, water_scene::texture::FilterMode::Nearest);
    assert_eq!(s.address_mode_u, water_scene::texture::AddressMode::ClampToEdge);
    assert_eq!(s.address_mode_v, water_scene::texture::AddressMode::ClampToEdge);
    assert_eq!(s.address_mode_w, water_scene::texture::AddressMode::ClampToEdge);
}

#[test]
fn undecodable_bytes_are_rejected() {
    let bytes: Vec<u8> = vec![1, 2, 3, 4, 5, 6, 7, 8];
    assert!(Texture::from_bytes(&bytes).is_err());
}

#[test]
fn jpeg_input_decodes_too() {
    let rgb = image::RgbImage::new(8, 8);
    let mut bytes: Vec<u8> = Vec::new();
    image::DynamicImage::ImageRgb8(rgb)
        .write_to(&mut Cursor::new(&mut bytes), image::ImageOutputFormat::Jpeg(90))
        .unwrap();
    let t = Texture::from_bytes(&bytes).unwrap();
    assert_eq!(t.desc.width, 8);
    assert_eq!(t.desc.height, 8);
    assert_eq!(t.pixels.len(), 4 * 8 * 8);
}
