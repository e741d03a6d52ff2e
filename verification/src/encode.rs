//! Raster assembly and payload encoding.
//!
//! The encoder classifies every composited cell into its biome color,
//! packs the colors into an interleaved RGB byte buffer, encodes the
//! buffer as a lossless PNG, and converts the PNG bytes to a base64 string
//! ready for a `data:image/png;base64,...` URI. Encoding failure surfaces
//! as a recoverable error, never a process abort.

use vstd::prelude::*;

use base64::Engine;

use crate::classify::{spec_classify, Color, ColorClassifier};

verus! {

/// What a generation request can fail with.
#[derive(PartialEq, Eq, Structural, Clone, Copy, Debug)]
pub enum GenerationError {
    /// A non-positive dimension, scale, or shape exponent.
    InvalidParameter,
    /// The raster encoder could not produce valid output.
    ImageEncodingFailed,
}

/// The finished artifact: pixel dimensions and a base64-encoded PNG.
pub struct ImagePayload {
    pub width: u32,
    pub height: u32,
    pub data: String,
}

/// One channel of a color: `0` is red, `1` is green, anything else blue.
pub open spec fn spec_channel(c: Color, k: int) -> u8 {
    if k == 0 {
        c.r
    } else if k == 1 {
        c.g
    } else {
        c.b
    }
}

/// The interleaved RGB bytes of a composited grid: three bytes per cell,
/// each cell classified into its biome color.
pub open spec fn spec_pixel_bytes(field: Seq<i64>) -> Seq<u8> {
    Seq::new(3 * field.len(), |i: int| spec_channel(spec_classify(field[i / 3] as int), i % 3))
}

/// The PNG encoding of an interleaved RGB buffer with the given
/// dimensions, as the image crate's encoder produces it: a function of the
/// dimensions and the bytes alone.
pub uninterp spec fn spec_png_of(width: int, height: int, data: Seq<u8>) -> Seq<u8>;

/// The padded standard-alphabet base64 encoding of a byte sequence, as
/// base64's `STANDARD` engine produces it: a function of the bytes alone.
pub uninterp spec fn spec_base64_of(data: Seq<u8>) -> Seq<char>;

/// Relies on `image::RgbImage::from_raw` and `ImageBuffer::write_to` with
/// `ImageOutputFormat::Png`: `from_raw` accepts a buffer of exactly
/// `width * height * 3` bytes, and the write fills the sink with the PNG
/// encoding of the dimensions and bytes, deterministically. On these
/// inputs the call always succeeds: the encoder rejects only zero
/// dimensions and invalid color/depth combinations (RGB with eight-bit
/// samples is valid), its image-data path errors only on a buffer-length
/// mismatch, its output is split into chunks small enough for the chunk
/// writer, and every write lands in a growable in-memory buffer, which
/// cannot fail.
#[verifier::external_body]
fn encode_png(width: u32, height: u32, data: &Vec<u8>) -> (r: Result<Vec<u8>, image::ImageError>)
    requires
        width >= 1,
        height >= 1,
        data@.len() == width as int * height as int * 3,
    ensures
        r is Ok,
        r matches Ok(b) ==> b@ == spec_png_of(width as int, height as int, data@),
{
    let img = image::RgbImage::from_raw(width, height, data.clone()).unwrap();
    let mut buffer: Vec<u8> = Vec::new();
    match img.write_to(&mut std::io::Cursor::new(&mut buffer), image::ImageOutputFormat::Png) {
        Ok(()) => Ok(buffer),
        Err(e) => Err(e),
    }
}

/// The image crate's error type, carried through opaquely.
#[verifier::external_type_specification]
#[verifier::external_body]
pub struct ExImageError(image::ImageError);

/// Relies on base64's `STANDARD` engine `encode`: the padded encoding is a
/// function of the input bytes alone, and its length is `4 * ceil(n / 3)`
/// (the crate's `encoded_len` with padding). `encode` panics when that
/// length overflows `usize`, so such inputs are excluded here.
#[verifier::external_body]
fn encode_base64(data: &Vec<u8>) -> (r: String)
    requires
        4 * ((data@.len() + 2) / 3) <= usize::MAX,
    ensures
        r@ == spec_base64_of(data@),
        r@.len() == 4 * ((data@.len() + 2) / 3),
{
    base64::engine::general_purpose::STANDARD.encode(data)
}

/// The largest PNG byte count whose padded base64 text still fits in
/// `usize`; anything above it is reported as an encoding failure.
pub const PAYLOAD_BYTE_CAP: usize = (usize::MAX - 4) / 4 * 3;

/// Assembles the pixel buffer and encodes it to a transferable payload.
pub struct ImageEncoder;

impl ImageEncoder {
    /// Classify every cell and pack the palette colors, row-major, into an
    /// interleaved RGB buffer.
    pub fn build_buffer(composite: &Vec<i64>) -> (r: Vec<u8>)
        requires
            3 * composite@.len() <= usize::MAX,
        ensures
            r@ == spec_pixel_bytes(composite@),
    {
        let n = composite.len();
        let mut buffer: Vec<u8> = Vec::new();
        let mut j: usize = 0;
        while j < n
            invariant
                n == composite@.len(),
                3 * n <= usize::MAX,
                j <= n,
                buffer@.len() == 3 * j,
                forall|jj: int|
                    0 <= jj < j ==> {
                        let c = spec_classify(composite@[jj] as int);
                        &&& #[trigger] buffer@[3 * jj] == c.r
                        &&& buffer@[3 * jj + 1] == c.g
                        &&& buffer@[3 * jj + 2] == c.b
                    },
            decreases n - j,
        {
            let c = ColorClassifier::classify(composite[j]);
            buffer.push(c.r);
            buffer.push(c.g);
            buffer.push(c.b);
            j = j + 1;
        }
        proof {
            lemma_buffer_matches_pixel_bytes(buffer@, composite@);
        }
        buffer
    }

    /// Encode a composited grid: pack the pixel buffer, PNG-encode it, and
    /// base64 the result. Success is owed — the PNG step cannot fail on
    /// these inputs — except in the one case the contract names: a PNG so
    /// large that its base64 text could not be addressed, reported as a
    /// recoverable encoding failure, never a panic.
    pub fn encode(width: u32, height: u32, composite: &Vec<i64>) -> (r: Result<
        ImagePayload,
        GenerationError,
    >)
        requires
            width >= 1,
            height >= 1,
            composite@.len() == width as int * height as int,
            3 * composite@.len() <= usize::MAX,
        ensures
            r matches Ok(p) ==> {
                &&& p.width == width
                &&& p.height == height
                &&& p.data@ == spec_base64_of(
                    spec_png_of(
                        width as int,
                        height as int,
                        spec_pixel_bytes(composite@),
                    ),
                )
            },
            r matches Err(e) ==> e == GenerationError::ImageEncodingFailed
                && spec_png_of(width as int, height as int, spec_pixel_bytes(composite@)).len()
                > PAYLOAD_BYTE_CAP,
            spec_png_of(width as int, height as int, spec_pixel_bytes(composite@)).len()
                <= PAYLOAD_BYTE_CAP ==> r is Ok,
    {
        let buffer = ImageEncoder::build_buffer(composite);
        match encode_png(width, height, &buffer) {
            Ok(png) => {
                if png.len() > PAYLOAD_BYTE_CAP {
                    return Err(GenerationError::ImageEncodingFailed);
                }
                proof {
                    lemma_base64_len_fits(png@.len() as int);
                }
                let data = encode_base64(&png);
                Ok(ImagePayload { width, height, data })
            },
            Err(_) => Err(GenerationError::ImageEncodingFailed),
        }
    }
}

/// A byte count low enough that its padded base64 length fits in `usize`.
proof fn lemma_base64_len_fits(n: int)
    requires
        0 <= n <= PAYLOAD_BYTE_CAP,
    ensures
        4 * ((n + 2) / 3) <= usize::MAX,
{
    let cap = (usize::MAX - 4) / 4;
    assert((n + 2) / 3 <= (3 * cap + 2) / 3) by {
        vstd::arithmetic::div_mod::lemma_div_is_ordered(n + 2, 3 * cap + 2, 3);
    }
    assert((3 * cap + 2) / 3 == cap) by {
        vstd::arithmetic::div_mod::lemma_fundamental_div_mod_converse_div(
            3 * cap + 2,
            3,
            cap,
            2,
        );
    }
}

/// A buffer whose triples hold each cell's channels equals the interleaved
/// pixel-byte sequence.
proof fn lemma_buffer_matches_pixel_bytes(buffer: Seq<u8>, field: Seq<i64>)
    requires
        buffer.len() == 3 * field.len(),
        forall|jj: int|
            0 <= jj < field.len() ==> {
                let c = spec_classify(field[jj] as int);
                &&& #[trigger] buffer[3 * jj] == c.r
                &&& buffer[3 * jj + 1] == c.g
                &&& buffer[3 * jj + 2] == c.b
            },
    ensures
        buffer == spec_pixel_bytes(field),
{
    let target = spec_pixel_bytes(field);
    assert forall|i: int| 0 <= i < buffer.len() implies buffer[i] == target[i] by {
        vstd::arithmetic::div_mod::lemma_fundamental_div_mod(i, 3);
        vstd::arithmetic::div_mod::lemma_mod_division_less_than_divisor(i, 3);
        vstd::arithmetic::div_mod::lemma_div_pos_is_pos(i, 3);
        let jj = i / 3;
        let k = i % 3;
        assert(jj < field.len());
        assert(i == 3 * jj + k);
        if k == 0 {
            assert(buffer[3 * jj] == spec_classify(field[jj] as int).r);
        } else if k == 1 {
            assert(buffer[3 * jj + 1] == spec_classify(field[jj] as int).g);
        } else {
            assert(buffer[3 * jj + 2] == spec_classify(field[jj] as int).b);
        }
    }
    assert(buffer =~= target);
}

} // verus!
