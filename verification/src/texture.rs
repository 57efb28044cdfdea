//! Texture images: decoding the PNG files of the game's textures.

use vstd::prelude::*;
use image::png::PNGDecoder;
use image::{ColorType, DecodingResult, ImageDecoder};

verus! {

/// Color type of a decoded PNG image, as far as the game tells them apart.
#[derive(Copy, Clone, PartialEq, Eq, Structural, Debug)]
pub enum PngColor {
    Rgb,
    Rgba,
    Other,
}

/// Decoded texture image: its size, whether its pixels have an alpha channel
/// (RGBA) or not (RGB), and the pixel bytes.
pub struct TextureImage {
    pub width: u32,
    pub height: u32,
    pub rgba: bool,
    pub data: Vec<u8>,
}

/// Why a PNG file does not give a texture image.
#[derive(Copy, Clone, PartialEq, Eq, Structural, Debug)]
pub enum TextureError {
    /// A header (IHDR) chunk of the file is not of an RGB or RGBA image with 8
    /// or 16 bit channels and at most `MAX_TEXTURE_PIXELS` pixels; such a file
    /// is not handed to the decoder.
    UnsupportedHeader,
    /// The bytes are not a PNG image that the decoder reads.
    Decode,
    /// The image is neither RGB nor RGBA.
    UnsupportedColorType,
    /// The pixel data has more than 8 bits per channel.
    UnsupportedData,
}

/// Most pixels of a texture image.
pub const MAX_TEXTURE_PIXELS: u64 = 16_777_216;

/// The big-endian 32 bit number at position `i` of `bytes`.
pub open spec fn be_u32_at(bytes: Seq<u8>, i: int) -> int {
    bytes[i] * 16777216 + bytes[i + 1] * 65536 + bytes[i + 2] * 256 + bytes[i + 3]
}

/// Is the chunk whose length field starts at position `pos` of `bytes` a
/// header (IHDR) chunk.
pub open spec fn is_header_chunk(bytes: Seq<u8>, pos: int) -> bool {
    bytes[pos + 4] == 73 && bytes[pos + 5] == 72 && bytes[pos + 6] == 68 && bytes[pos + 7] == 82
}

/// The header chunk data at position `data` of `bytes`, `length` bytes long,
/// is of an RGB or RGBA image with 8 or 16 bit channels and at most
/// `MAX_TEXTURE_PIXELS` pixels, or too short for the decoder to read it.
pub open spec fn header_accepted(bytes: Seq<u8>, data: int, length: int) -> bool {
    ||| length < 13
    ||| data + 13 > bytes.len()
    ||| {
        &&& bytes[data + 9] == 2 || bytes[data + 9] == 6
        &&& bytes[data + 8] == 8 || bytes[data + 8] == 16
        &&& be_u32_at(bytes, data) * be_u32_at(bytes, data + 4) <= MAX_TEXTURE_PIXELS
    }
}

/// Every header chunk of `bytes` from the chunk at position `pos` on, found by
/// the chunk lengths, is accepted by `header_accepted`.
pub open spec fn chunks_accepted(bytes: Seq<u8>, pos: int) -> bool
    decreases bytes.len() - pos,
{
    if pos < 0 || pos + 8 > bytes.len() {
        true
    } else {
        let length = be_u32_at(bytes, pos);
        let next = pos + 8 + length + 4;
        &&& is_header_chunk(bytes, pos) ==> header_accepted(bytes, pos + 8, length)
        &&& next > bytes.len() || chunks_accepted(bytes, next)
    }
}

/// PNG file `bytes` may be handed to the decoder: every header chunk after the
/// 8 byte signature is accepted by `header_accepted`.
pub open spec fn png_accepted(bytes: Seq<u8>) -> bool {
    chunks_accepted(bytes, 8)
}

/// The big-endian 32 bit number at position `i` of `bytes`.
fn be_u32(bytes: &[u8], i: usize) -> (value: u64)
    requires
        i + 4 <= bytes@.len(),
    ensures
        value == be_u32_at(bytes@, i as int),
{
    bytes[i] as u64 * 16777216 + bytes[i + 1] as u64 * 65536 + bytes[i + 2] as u64 * 256 + bytes[i + 3] as u64
}

/// May PNG file `bytes` be handed to the decoder; see `png_accepted`.
pub fn png_header_accepted(bytes: &[u8]) -> (accepted: bool)
    ensures
        accepted == png_accepted(bytes@),
{
    let n = bytes.len();
    if n < 16 {
        return true;
    }
    let mut pos: usize = 8;
    while n - pos >= 8
        invariant
            n == bytes@.len(),
            8 <= pos <= n,
            png_accepted(bytes@) == chunks_accepted(bytes@, pos as int),
        decreases n - pos,
    {
        let length = be_u32(bytes, pos);
        let data = pos + 8;
        let ghost b = bytes@;
        if bytes[pos + 4] == 73 && bytes[pos + 5] == 72 && bytes[pos + 6] == 68 && bytes[pos + 7] == 82 {
            if length >= 13 && n - data >= 13 {
                let depth = bytes[data + 8];
                let color = bytes[data + 9];
                if !((color == 2 || color == 6) && (depth == 8 || depth == 16)) {
                    return false;
                }
                let width = be_u32(bytes, data);
                let height = be_u32(bytes, data + 4);
                if width == 0 || height == 0 {
                    assert(width * height == 0) by (nonlinear_arith)
                        requires
                            width == 0 || height == 0,
                    ;
                } else {
                    if width > MAX_TEXTURE_PIXELS || height > MAX_TEXTURE_PIXELS {
                        assert(width * height > MAX_TEXTURE_PIXELS) by (nonlinear_arith)
                            requires
                                width >= 1,
                                height >= 1,
                                width > MAX_TEXTURE_PIXELS || height > MAX_TEXTURE_PIXELS,
                        ;
                        return false;
                    }
                    assert(width * height <= MAX_TEXTURE_PIXELS * MAX_TEXTURE_PIXELS) by (nonlinear_arith)
                        requires
                            width <= MAX_TEXTURE_PIXELS,
                            height <= MAX_TEXTURE_PIXELS,
                    ;
                    if width * height > MAX_TEXTURE_PIXELS {
                        return false;
                    }
                }
                assert(header_accepted(b, data as int, length as int));
            }
        }
        assert(is_header_chunk(b, pos as int) ==> header_accepted(b, data as int, length as int));
        if length > (n - data) as u64 || (n - data) - (length as usize) < 4 {
            assert(chunks_accepted(b, pos as int));
            return true;
        }
        assert(chunks_accepted(b, pos as int) == chunks_accepted(b, data + length + 4));
        pos = data + length as usize + 4;
    }
    true
}

/// What the `image` crate's PNG decoder reads of `bytes`: width, height,
/// color type, and the pixel bytes when the decoder gives them as bytes
/// (`None` for 16 bit channels); `None` when decoding fails.
pub uninterp spec fn png_decoded(bytes: Seq<u8>) -> Option<(u32, u32, PngColor, Option<Seq<u8>>)>;

/// View of a decoder result: the pixel bytes as a sequence.
pub open spec fn decoded_view(decoded: Option<(u32, u32, PngColor, Option<Vec<u8>>)>) -> Option<(u32, u32, PngColor, Option<Seq<u8>>)> {
    match decoded {
        None => None,
        Some((width, height, color, data)) => Some((width, height, color, match data {
            Some(d) => Some(d@),
            None => None,
        })),
    }
}

/// Calls `image::png::PNGDecoder` on `bytes`: its `dimensions`, `colortype`
/// and `read_image`. The contract names the result `png_decoded` of the bytes;
/// nothing more of the decoding is stated. Only accepted files are handed to
/// it: the decoder (the `png` crate under it) panics on indexed images without
/// a palette or with indices past it, and on images whose buffer size does not
/// fit in memory.
#[verifier::external_body]
fn decode_png(bytes: &[u8]) -> (decoded: Option<(u32, u32, PngColor, Option<Vec<u8>>)>)
    requires
        png_accepted(bytes@),
    ensures
        decoded_view(decoded) == png_decoded(bytes@),
{
    let mut decoder = PNGDecoder::new(bytes);
    let (width, height) = decoder.dimensions().ok()?;
    let color = match decoder.colortype().ok()? {
        ColorType::RGBA(_) => PngColor::Rgba,
        ColorType::RGB(_) => PngColor::Rgb,
        ColorType::Gray(_) => PngColor::Other,
        ColorType::GrayA(_) => PngColor::Other,
        ColorType::Palette(_) => PngColor::Other,
    };
    let data = match decoder.read_image().ok()? {
        DecodingResult::U8(data) => Some(data),
        DecodingResult::U16(_) => None,
    };
    Some((width, height, color, data))
}

/// The texture image, as width, height, RGBA flag and pixel bytes, of a
/// decoder result `decoded`: an RGB or RGBA image with byte data gives its
/// image; other color types, other data and failed decoding give their errors.
pub open spec fn texture_of(decoded: Option<(u32, u32, PngColor, Option<Seq<u8>>)>) -> Result<(u32, u32, bool, Seq<u8>), TextureError> {
    match decoded {
        None => Err(TextureError::Decode),
        Some((width, height, color, data)) => match color {
            PngColor::Other => Err(TextureError::UnsupportedColorType),
            _ => match data {
                None => Err(TextureError::UnsupportedData),
                Some(d) => Ok((width, height, color == PngColor::Rgba, d)),
            },
        },
    }
}

/// View of a texture image result.
pub open spec fn texture_view(r: Result<TextureImage, TextureError>) -> Result<(u32, u32, bool, Seq<u8>), TextureError> {
    match r {
        Ok(image) => Ok((image.width, image.height, image.rgba, image.data@)),
        Err(e) => Err(e),
    }
}

/// Texture image of a decoder result; see `texture_of`.
pub fn texture_image_from_decoded(decoded: Option<(u32, u32, PngColor, Option<Vec<u8>>)>) -> (r: Result<TextureImage, TextureError>)
    ensures
        texture_view(r) == texture_of(decoded_view(decoded)),
{
    match decoded {
        None => Err(TextureError::Decode),
        Some((width, height, color, data)) => match color {
            PngColor::Other => Err(TextureError::UnsupportedColorType),
            PngColor::Rgb | PngColor::Rgba => match data {
                None => Err(TextureError::UnsupportedData),
                Some(data) => Ok(TextureImage { width, height, rgba: color == PngColor::Rgba, data }),
            },
        },
    }
}

/// Decodes the PNG file `bytes` to a texture image; see `texture_of`. A file
/// whose headers `png_accepted` refuses is not decoded.
pub fn texture_image_from_png(bytes: &[u8]) -> (r: Result<TextureImage, TextureError>)
    ensures
        texture_view(r) == if png_accepted(bytes@) {
            texture_of(png_decoded(bytes@))
        } else {
            Err(TextureError::UnsupportedHeader)
        },
{
    if !png_header_accepted(bytes) {
        return Err(TextureError::UnsupportedHeader);
    }
    let decoded = decode_png(bytes);
    texture_image_from_decoded(decoded)
}

} // verus!
