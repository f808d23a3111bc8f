//! Reading a rendered texture back to the CPU and encoding it as a PNG image,
//! as done to inspect what was rendered.
use vstd::prelude::*;

verus! {

/// Bytes per texel of the shared RGBA8 texture.
pub const BYTES_PER_TEXEL: u32 = 4;

/// The row pitch to which a texture-to-buffer copy must be aligned.
pub const COPY_BYTES_PER_ROW_ALIGNMENT: u32 = 256;

/// The staging buffer and copy layout for reading back a `width` x `height`
/// RGBA8 texture as tightly packed rows.
#[derive(PartialEq, Eq, Structural, Debug, Clone, Copy)]
pub struct ReadbackLayout {
    /// Size of the staging buffer, in bytes.
    pub buffer_size: u64,
    /// Bytes from the start of one row to the start of the next.
    pub bytes_per_row: u32,
    /// Rows of one image.
    pub rows_per_image: u32,
}

/// The read-back layout of a `width` x `height` RGBA8 texture: a buffer of
/// four bytes per texel, rows of four bytes per texel, one row per texel row.
/// The rows meet the copy alignment exactly when the width is a multiple of
/// 64 texels.
pub fn readback_layout(width: u32, height: u32) -> (layout: ReadbackLayout)
    requires
        width * height * 4 <= u32::MAX,
        width * 4 <= u32::MAX,
    ensures
        layout.buffer_size == width * height * 4,
        layout.bytes_per_row == width * 4,
        layout.rows_per_image == height,
        (layout.bytes_per_row % COPY_BYTES_PER_ROW_ALIGNMENT == 0) <==> (width % 64 == 0),
{
    assert(width * height <= width * height * 4) by (nonlinear_arith);
    let texels: u32 = width * height;
    let size: u32 = texels * BYTES_PER_TEXEL;
    let bytes_per_row: u32 = width * BYTES_PER_TEXEL;
    ReadbackLayout { buffer_size: size as u64, bytes_per_row, rows_per_image: height }
}


#[verifier::external_type_specification]
#[verifier::external_body]
pub struct ExPngEncodingError(png::EncodingError);

/// The PNG file that the `png` crate writes for a `width` x `height` image of
/// 8-bit RGBA pixels with its default encoder settings.
pub uninterp spec fn png_rgba8_encoding(width: u32, height: u32, pixels: Seq<u8>) -> Seq<u8>;

/// Encodes `pixels` with `png::Encoder` (colour type RGBA, default depth of 8
/// bits and default compression) into a byte vector: `write_header`,
/// `write_image_data`, `finish`. The result, when there is one, is named by
/// `png_rgba8_encoding` of the arguments. The encoder refuses a zero width or
/// height (in `write_header`) and image data whose length is not four bytes
/// per pixel (in `write_image_data`); otherwise every step only writes into
/// the vector and compresses into vectors, which does not fail, and no chunk
/// limit is reached, so it succeeds. It computes the image size in `usize`,
/// which must not overflow.
#[verifier::external_body]
fn png_encode_rgba8(width: u32, height: u32, pixels: &[u8]) -> (res: Result<Vec<u8>, png::EncodingError>)
    requires
        width * height * 4 <= usize::MAX,
    ensures
        res matches Ok(bytes) ==> bytes@ == png_rgba8_encoding(width, height, pixels@),
        res is Ok <==> (width > 0 && height > 0 && pixels@.len() == width * height * 4),
{
    let mut out: Vec<u8> = Vec::new();
    let mut encoder = png::Encoder::new(std::io::Cursor::new(&mut out), width, height);
    encoder.set_color(png::ColorType::Rgba);
    let mut writer = encoder.write_header()?;
    writer.write_image_data(pixels)?;
    writer.finish()?;
    Ok(out)
}

/// Why an image could not be encoded as PNG.
#[derive(PartialEq, Eq, Structural, Debug, Clone, Copy)]
pub enum PngError {
    /// The encoder refused the image.
    EncodingFailed,
}

/// Encodes a read-back `width` x `height` RGBA8 image as a PNG file. An empty
/// image, or pixel data that is not four bytes per pixel, is refused; any
/// other image is encoded. The image size must fit in `usize`.
pub fn encode_png_rgba(width: u32, height: u32, pixels: &[u8]) -> (res: Result<Vec<u8>, PngError>)
    requires
        width * height * 4 <= usize::MAX,
    ensures
        res is Ok <==> (width > 0 && height > 0 && pixels@.len() == width * height * 4),
        res matches Ok(bytes) ==> bytes@ == png_rgba8_encoding(width, height, pixels@),
        width == 0 || height == 0 || pixels@.len() != width * height * 4 ==> res
            == Err::<Vec<u8>, PngError>(PngError::EncodingFailed),
{
    match png_encode_rgba8(width, height, pixels) {
        Ok(bytes) => Ok(bytes),
        Err(_) => Err(PngError::EncodingFailed),
    }
}

} // verus!
