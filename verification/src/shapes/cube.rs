//! The textured cube.
//!
//! The cube's face image arrives as a byte string holding a PNG file.  The
//! bytes are decoded through the image decoder, the frame's colour layout
//! and bit depth are checked against the two texel formats the pipeline
//! accepts, and the pixel bytes are handed on for upload.  A cube without an
//! image falls back to the generated texture of `create_texels`.

use vstd::prelude::*;

pub mod polygon;

verus! {

/// What the image decoder reported of one frame: its size in pixels, the
/// image format's own codes for colour layout and bit depth, and the pixel
/// bytes.
pub struct PngFrame {
    pub width: u32,
    pub height: u32,
    pub color_code: u8,
    pub depth_code: u8,
    pub data: Vec<u8>,
}

/// What decoding a byte string as a PNG image yields: nothing when the bytes
/// are not a well-formed image, else the frame's width, height, colour code,
/// depth code and pixel bytes.  The decoder's answer depends on the bytes
/// alone.
pub uninterp spec fn png_frame_of(bytes: Seq<u8>) -> Option<(u32, u32, u8, u8, Seq<u8>)>;

/// A decoded frame, as `png_frame_of` names frames.
pub open spec fn frame_model(frame: PngFrame) -> (u32, u32, u8, u8, Seq<u8>) {
    (frame.width, frame.height, frame.color_code, frame.depth_code, frame.data@)
}

/// Relies on png's `Decoder::read_info` and `Reader::next_frame` to decode
/// one frame: the answer is a function of the input bytes alone, the pixel
/// bytes fill the frame row by row, and the codes are the PNG format's own
/// (colour code six is red-green-blue-alpha; the depth code counts bits per
/// sample).
#[verifier::external_body]
fn decode_png(bytes: &[u8]) -> (frame: Option<PngFrame>)
    ensures
        match frame {
            Some(f) => png_frame_of(bytes@) == Some(frame_model(f)),
            None => png_frame_of(bytes@) is None,
        },
{
    let decoder = png::Decoder::new(std::io::Cursor::new(bytes));
    let Ok(mut reader) = decoder.read_info() else { return None };
    let mut data = vec![0u8; reader.output_buffer_size()];
    let Ok(info) = reader.next_frame(&mut data) else { return None };
    data.truncate(info.buffer_size());
    Some(PngFrame {
        width: info.width,
        height: info.height,
        color_code: info.color_type as u8,
        depth_code: info.bit_depth as u8,
        data,
    })
}

/// The colour code the PNG format gives a red-green-blue-alpha image.
pub const COLOR_CODE_RGBA: u8 = 6;

/// The depth code for eight bits per sample.
pub const DEPTH_CODE_EIGHT: u8 = 8;

/// The depth code for sixteen bits per sample.
pub const DEPTH_CODE_SIXTEEN: u8 = 16;

/// The texel layouts the cube's pipeline accepts: full colour with an alpha
/// channel, at one byte or two per sample.
#[derive(Clone, Copy, Debug, PartialEq, Eq, Structural)]
pub enum TexelFormat {
    Rgba8,
    Rgba16,
}

/// The texel format owed to a frame's colour and depth codes: only
/// red-green-blue-alpha frames are accepted, at eight or sixteen bits per
/// sample.
pub open spec fn spec_texture_format(color_code: u8, depth_code: u8) -> Option<TexelFormat> {
    if color_code == COLOR_CODE_RGBA && depth_code == DEPTH_CODE_EIGHT {
        Some(TexelFormat::Rgba8)
    } else if color_code == COLOR_CODE_RGBA && depth_code == DEPTH_CODE_SIXTEEN {
        Some(TexelFormat::Rgba16)
    } else {
        None
    }
}

/// Picks the texel format for a frame's colour and depth codes.
pub fn texture_format_of(color_code: u8, depth_code: u8) -> (format: Option<TexelFormat>)
    ensures
        format == spec_texture_format(color_code, depth_code),
{
    if color_code == COLOR_CODE_RGBA && depth_code == DEPTH_CODE_EIGHT {
        Some(TexelFormat::Rgba8)
    } else if color_code == COLOR_CODE_RGBA && depth_code == DEPTH_CODE_SIXTEEN {
        Some(TexelFormat::Rgba16)
    } else {
        None
    }
}

/// Why no texture could be made of a byte string.
#[derive(Clone, Copy, Debug, PartialEq, Eq, Structural)]
pub enum TextureError {
    /// The bytes are not a well-formed image.
    Decode,
    /// The image's colour layout or bit depth is none the pipeline takes.
    Format,
}

/// A face image ready for upload: its size, the texel format the pipeline
/// reads it with, and the texel bytes row by row.
#[derive(Debug)]
pub struct CubeTexture {
    pub width: u32,
    pub height: u32,
    pub format: TexelFormat,
    pub texels: Vec<u8>,
}

/// What `cube_texture_from_png` owes for a given decode answer: the decode
/// error when the bytes are no image, the format error when the frame's
/// layout is not accepted, else the frame with its format.
pub open spec fn spec_cube_texture(decoded: Option<(u32, u32, u8, u8, Seq<u8>)>) -> Result<
    (u32, u32, TexelFormat, Seq<u8>),
    TextureError,
> {
    match decoded {
        Option::None => Result::Err(TextureError::Decode),
        Option::Some((width, height, color_code, depth_code, data)) => match spec_texture_format(
            color_code,
            depth_code,
        ) {
            Option::None => Result::Err(TextureError::Format),
            Option::Some(format) => Result::Ok((width, height, format, data)),
        },
    }
}

/// Decodes a byte string as the cube's face image and checks its layout
/// against the formats the pipeline accepts.
pub fn cube_texture_from_png(bytes: &[u8]) -> (texture: Result<CubeTexture, TextureError>)
    ensures
        match texture {
            Result::Ok(t) => spec_cube_texture(png_frame_of(bytes@)) == Result::<
                _,
                TextureError,
            >::Ok((t.width, t.height, t.format, t.texels@)),
            Result::Err(e) => spec_cube_texture(png_frame_of(bytes@)) == Result::<
                (u32, u32, TexelFormat, Seq<u8>),
                _,
            >::Err(e),
        },
{
    let frame = match decode_png(bytes) {
        Some(frame) => frame,
        None => {
            return Err(TextureError::Decode);
        },
    };
    let format = match texture_format_of(frame.color_code, frame.depth_code) {
        Some(format) => format,
        None => {
            return Err(TextureError::Format);
        },
    };
    Ok(CubeTexture { width: frame.width, height: frame.height, format, texels: frame.data })
}

/// Fills a square fallback texture of side `size`, one byte per texel: the
/// escape count of each pixel's point under z := z² + c.
pub fn create_texels(size: usize) -> (texels: Vec<u8>)
    requires
        2 <= size <= 4096,
    ensures
        texels@.len() == size * size,
        forall|id: int|
            0 <= id < size * size ==> texels@[id] as nat == crate::render_config::texel_value(
                size as int,
                id,
            ),
{
    crate::render_config::create_texels(size)
}

} // verus!
