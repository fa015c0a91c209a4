//! Pixel data on the host side: packed RGBA byte buffers with their
//! dimensions, and decoding of encoded image bytes.

use vstd::prelude::*;

use crate::types::Extent2d;

verus! {

/// What an encoded image decodes to: its packed RGBA bytes and its size.
pub ghost struct DecodedImage {
    pub pixels: Seq<u8>,
    pub width: u32,
    pub height: u32,
}

/// The RGBA decoding of encoded image bytes, when they parse as an image.
/// The decoding is a function of the bytes alone.
pub uninterp spec fn decoded_rgba(bytes: Seq<u8>) -> Option<DecodedImage>;

/// Relies on image::load_from_memory, DynamicImage::to_rgba8 and
/// ImageBuffer::into_raw: decoding depends on the bytes alone, and the raw
/// RGBA buffer of a decoded image holds exactly width * height * 4 bytes.
#[verifier::external_body]
fn decode_rgba(bytes: &[u8]) -> (r: Option<(Vec<u8>, u32, u32)>)
    ensures
        match r {
            Option::Some(d) => {
                &&& decoded_rgba(bytes@) == Option::Some(
                    DecodedImage { pixels: d.0@, width: d.1, height: d.2 },
                )
                &&& d.0@.len() == 4 * (d.1 as nat) * (d.2 as nat)
            },
            Option::None => decoded_rgba(bytes@) is None,
        },
{
    match image::load_from_memory(bytes) {
        Ok(img) => {
            let rgba = img.to_rgba8();
            let (w, h) = rgba.dimensions();
            Some((rgba.into_raw(), w, h))
        },
        Err(_) => None,
    }
}

/// Errors of host-side texture handling.
#[derive(Clone, Copy, PartialEq, Eq, Structural, Debug)]
pub enum TextureError {
    InvalidImageBytes,
}

impl TextureError {
    pub fn message(&self) -> &'static str {
        match self {
            TextureError::InvalidImageBytes => {
                "Failed to load texture from bytes. Perhaps the bytes were of invalid format?"
            },
        }
    }
}

/// A host-side texture: a packed RGBA byte buffer plus its dimensions.
#[derive(Clone, Debug)]
pub struct Texture {
    pub data: Vec<u8>,
    pub dimensions: Extent2d,
}

impl Texture {
    pub open spec fn wf(self) -> bool {
        self.data@.len() == 4 * (self.dimensions.width as nat) * (self.dimensions.height as nat)
    }

    /// The default texture: a single black, fully transparent pixel.
    pub fn new() -> (t: Texture)
        ensures
            t.wf(),
            t.dimensions == (Extent2d { width: 1, height: 1 }),
            t.data@ == seq![0u8, 0u8, 0u8, 0u8],
    {
        let mut data: Vec<u8> = Vec::new();
        data.push(0u8);
        data.push(0u8);
        data.push(0u8);
        data.push(0u8);
        proof {
            assert(data@ =~= seq![0u8, 0u8, 0u8, 0u8]);
        }
        Texture { data, dimensions: Extent2d { width: 1, height: 1 } }
    }

    /// Wraps packed RGBA bytes; the caller guarantees the size matches.
    pub fn from_bytes(data: &[u8], dimensions: Extent2d) -> (t: Texture)
        requires
            data@.len() == 4 * (dimensions.width as nat) * (dimensions.height as nat),
        ensures
            t.wf(),
            t.data@ == data@,
            t.dimensions == dimensions,
    {
        Texture { data: vstd::slice::slice_to_vec(data), dimensions }
    }

    /// Decodes encoded image bytes into a packed RGBA texture. Succeeds
    /// exactly when the bytes decode as an image.
    pub fn from_image_bytes(bytes: &[u8]) -> (r: Result<Texture, TextureError>)
        ensures
            match r {
                Result::Ok(t) => {
                    &&& decoded_rgba(bytes@) matches Option::Some(d)
                    &&& t.data@ == d.pixels
                    &&& t.dimensions == (Extent2d { width: d.width, height: d.height })
                    &&& t.wf()
                },
                Result::Err(e) => {
                    &&& e == TextureError::InvalidImageBytes
                    &&& decoded_rgba(bytes@) is None
                },
            },
    {
        match decode_rgba(bytes) {
            Option::Some((pixels, width, height)) => {
                Result::Ok(Texture { data: pixels, dimensions: Extent2d { width, height } })
            },
            Option::None => Result::Err(TextureError::InvalidImageBytes),
        }
    }
}

/// A component that exposes an uploaded texture for rendering.
pub trait TextureRenderComponent {
    fn get_texture(&self) -> &crate::buffer::TextureBuffer;
}

} // verus!
