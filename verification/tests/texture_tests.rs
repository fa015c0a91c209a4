use imperium::texture::{Texture, TextureError};
use imperium::types::Extent2d;

// A 2x1 RGBA PNG: a red pixel, then a half-transparent green pixel.
const TINY_PNG: [u8; 72] = [
    137, 80, 78, 71, 13, 10, 26, 10, 0, 0, 0, 13, 73, 72, 68, 82, 0, 0, 0, 2, 0, 0, 0, 1, 8, 6,
    0, 0, 0, 244, 34, 127, 138, 0, 0, 0, 15, 73, 68, 65, 84, 120, 156, 99, 248, 207, 192, 240,
    31, 8, 27, 0, 16, 121, 3, 126, 125, 99, 206, 215, 0, 0, 0, 0, 73, 69, 78, 68, 174, 66, 96,
    130,
];

#[test]
fn default_texture_is_one_transparent_pixel() {
    let t = Texture::new();
    assert_eq!(t.dimensions, Extent2d { width: 1, height: 1 });
    assert_eq!(t.data, vec![0, 0, 0, 0]);
}

#[test]
fn from_bytes_wraps_packed_pixels() {
    let pixels: Vec<u8> = (0..24).collect();
    let t = Texture::from_bytes(&pixels, Extent2d { width: 3, height: 2 });
    assert_eq!(t.data, pixels);
    assert_eq!(t.dimensions, Extent2d { width: 3, height: 2 });
}

#[test]
fn decoding_a_png_yields_its_rgba_pixels() {
    let t = Texture::from_image_bytes(&TINY_PNG).unwrap();
    assert_eq!(t.dimensions, Extent2d { width: 2, height: 1 });
    assert_eq!(t.data, vec![255, 0, 0, 255, 0, 255, 0, 128]);
}

#[test]
fn decoding_garbage_bytes_is_rejected() {
    let err = Texture::from_image_bytes(&[1, 2, 3, 4, 5, 6, 7, 8]).unwrap_err();
    assert_eq!(err, TextureError::InvalidImageBytes);
    assert_eq!(
        err.message(),
        "Failed to load texture from bytes. Perhaps the bytes were of invalid format?"
    );
}
