use vstd::prelude::*;

verus! {

/// The PNG file that image's encoder writes for an RGBA image of 8 bits per
/// channel.
pub uninterp spec fn png_rgba8_of(pixels: Seq<u8>, width: u32, height: u32) -> Seq<u8>;

/// The standard, padded base64 text of some bytes.
pub uninterp spec fn base64_standard_of(bytes: Seq<u8>) -> Seq<char>;

#[verifier::external_type_specification]
#[verifier::external_body]
pub struct ExImageError(image::ImageError);

/// Why a screen capture could not be turned into text.
#[derive(Clone, Copy, Debug, PartialEq, Eq, Structural)]
pub enum SnapshotError {
    /// The pixel buffer does not hold four bytes for each pixel.
    BufferSizeMismatch,
    /// The PNG encoder refused the image: it has no pixels in one direction.
    PngEncoding,
    /// The PNG file is too large for its base64 text to be addressed.
    TooLarge,
}

/// Bytes in an RGBA image of 8 bits per channel.
pub open spec fn rgba8_len(width: u32, height: u32) -> int {
    4 * width * height
}

/// Length of the padded base64 text of `n` bytes.
pub open spec fn base64_len(n: int) -> int {
    (n + 2) / 3 * 4
}

/// Relies on image's `PngEncoder::write_image` with `ExtendedColorType::Rgba8`
/// into a byte vector: on success the vector holds the encoded PNG file. The
/// encoder panics unless the buffer holds four bytes per pixel; png's writer
/// refuses a zero width or height, and writing into a vector cannot fail.
#[verifier::external_body]
fn encode_png_rgba8(pixels: &Vec<u8>, width: u32, height: u32) -> (r: Result<Vec<u8>, image::ImageError>)
    requires
        pixels@.len() == rgba8_len(width, height),
    ensures
        width > 0 && height > 0 ==> r is Ok,
        width == 0 || height == 0 ==> r is Err,
        r is Ok ==> r->Ok_0@ == png_rgba8_of(pixels@, width, height),
{
    let mut out: Vec<u8> = Vec::new();
    let written = image::ImageEncoder::write_image(
        image::codecs::png::PngEncoder::new(&mut out),
        pixels,
        width,
        height,
        image::ExtendedColorType::Rgba8,
    );
    written.map(|_| out)
}

/// Relies on base64's `Engine::encode` with the `STANDARD` engine: padded
/// standard base64, four characters for each started group of three bytes.
/// It panics when that length does not fit in `usize`.
#[verifier::external_body]
fn encode_base64_standard(bytes: &Vec<u8>) -> (r: String)
    requires
        base64_len(bytes@.len() as int) <= usize::MAX,
    ensures
        r@ == base64_standard_of(bytes@),
        r@.len() == base64_len(bytes@.len() as int),
{
    base64::Engine::encode(&base64::engine::general_purpose::STANDARD, bytes)
}

/// The base64 text of a PNG file.
pub fn png_to_base64(png: &Vec<u8>) -> (r: String)
    requires
        base64_len(png@.len() as int) <= usize::MAX,
    ensures
        r@ == base64_standard_of(png@),
        r@.len() == base64_len(png@.len() as int),
{
    encode_base64_standard(png)
}

/// Encodes a captured RGBA screen image as a PNG file and returns that file
/// as base64 text.
pub fn capture_to_base64(pixels: &Vec<u8>, width: u32, height: u32) -> (r: Result<String, SnapshotError>)
    ensures
        pixels@.len() != rgba8_len(width, height) <==> r == Err::<String, SnapshotError>(
            SnapshotError::BufferSizeMismatch,
        ),
        pixels@.len() == rgba8_len(width, height) && (width == 0 || height == 0) <==> r == Err::<
            String,
            SnapshotError,
        >(SnapshotError::PngEncoding),
        pixels@.len() == rgba8_len(width, height) && width > 0 && height > 0 && base64_len(
            png_rgba8_of(pixels@, width, height).len() as int,
        ) > usize::MAX <==> r == Err::<String, SnapshotError>(SnapshotError::TooLarge),
        pixels@.len() == rgba8_len(width, height) && width > 0 && height > 0 && base64_len(
            png_rgba8_of(pixels@, width, height).len() as int,
        ) <= usize::MAX <==> r is Ok,
        r matches Ok(s) ==> s@ == base64_standard_of(png_rgba8_of(pixels@, width, height)),
{
    let w: u128 = width as u128;
    let h: u128 = height as u128;
    proof {
        assert(w * h <= 0xffff_ffffu128 * 0xffff_ffffu128) by (nonlinear_arith)
            requires
                w <= 0xffff_ffffu128,
                h <= 0xffff_ffffu128,
        ;
    }
    let expected: u128 = 4 * (w * h);
    assert(expected == rgba8_len(width, height)) by (nonlinear_arith)
        requires
            expected == 4 * (w * h),
            w == width,
            h == height,
    ;
    if pixels.len() as u128 != expected {
        return Err(SnapshotError::BufferSizeMismatch);
    }
    let png = match encode_png_rgba8(pixels, width, height) {
        Ok(bytes) => bytes,
        Err(_) => {
            return Err(SnapshotError::PngEncoding);
        },
    };
    let text_len: u128 = (png.len() as u128 + 2) / 3 * 4;
    if text_len > usize::MAX as u128 {
        return Err(SnapshotError::TooLarge);
    }
    Ok(png_to_base64(&png))
}

} // verus!
