//! In-memory image conversion and compression, done by the caesium codec.
//!
//! The codec is not verified. What it returns is given a name here, and the
//! functions of this module say which call they make and that they hand its
//! outcome on untouched.
//!
//! The codec does not return on every input: its WebP encoder panics on a
//! picture with a side of more than 16383 pixels, and its WebP decoder spins
//! on a file whose frame does not decode. The functions that call the codec
//! leave these inputs out. Beside each stands one that takes any input, looks
//! at the picture first and calls the codec only where it will return.

use std::io::Cursor;

use vstd::prelude::*;

use caesium::parameters::CSParameters;
use caesium::SupportedFileTypes;
use image::ImageReader;
use webp::Decoder;

verus! {

/// The longest side that the codec's WebP encoder takes.
pub const WEBP_ENCODER_MAX_SIDE: u32 = 16383;

/// The longest side that the codec takes when it writes the picture out on
/// the way to the WebP encoder.
pub const WEBP_WRITER_MAX_SIDE: u32 = 16384;

/// The code of the one failure whose message the codec does not make from its
/// arguments alone: an error inside its JPEG library.
pub const INTERNAL_JPEG_FAILURE: u32 = 20104;

/// An image format the codec knows as the target of a conversion.
#[derive(Clone, Copy, Debug, PartialEq, Eq, Structural)]
pub enum ImageFormat {
    /// JPEG.
    Jpeg,
    /// PNG.
    Png,
    /// GIF.
    Gif,
    /// WebP.
    WebP,
    /// TIFF.
    Tiff,
}

/// A failure reported by the codec.
#[derive(Debug)]
pub struct CodecError {
    /// The codec's number for the step that failed.
    pub code: u32,
    /// The codec's description of the failure.
    pub message: String,
}

/// The request to turn a JPEG image into a WebP image.
#[derive(Debug)]
pub struct ConvertJpegToWebpArgs {
    /// The encoded JPEG image.
    pub jpeg: Vec<u8>,
}

/// The request to compress a WebP image down to a size.
#[derive(Debug)]
pub struct CompressWebpToSizeArgs {
    /// The encoded WebP image.
    pub webp: Vec<u8>,
    /// The size in bytes that the result should not exceed.
    pub max_size: usize,
}

/// What a codec call came to: the bytes it produced, or the code and the
/// message of the failure.
pub open spec fn outcome(result: Result<Vec<u8>, CodecError>) -> Result<Seq<u8>, (u32, Seq<char>)> {
    match result {
        Ok(bytes) => Ok(bytes@),
        Err(error) => Err((error.code, error.message@)),
    }
}

/// An outcome without the failure's message.
pub open spec fn in_brief(outcome: Result<Seq<u8>, (u32, Seq<char>)>) -> Result<Seq<u8>, u32> {
    match outcome {
        Ok(bytes) => Ok(bytes),
        Err(failure) => Err(failure.0),
    }
}

/// Whether the bytes carry the mark by which the codec takes a file for WebP:
/// `WEBP` in the ninth to twelfth byte.
pub open spec fn carries_webp_mark(bytes: Seq<u8>) -> bool {
    &&& bytes.len() > 11
    &&& bytes[8] == 0x57 && bytes[9] == 0x45 && bytes[10] == 0x42 && bytes[11] == 0x50
}

/// Whether the bytes start as a WebP file does: `RIFF`, four bytes of length,
/// then `WEBP`.
pub open spec fn has_webp_signature(bytes: Seq<u8>) -> bool {
    &&& carries_webp_mark(bytes)
    &&& bytes[0] == 0x52 && bytes[1] == 0x49 && bytes[2] == 0x46 && bytes[3] == 0x46
}

/// Whether a picture of these sides gets as far as the WebP encoder and is
/// too large for it.
pub open spec fn stops_webp_encoder(sides: (u32, u32)) -> bool {
    &&& sides.0 <= WEBP_WRITER_MAX_SIDE && sides.1 <= WEBP_WRITER_MAX_SIDE
    &&& sides.0 > WEBP_ENCODER_MAX_SIDE || sides.1 > WEBP_ENCODER_MAX_SIDE
}

/// Whether a picture of these sides is one that the WebP encoder takes.
pub open spec fn fits_webp_encoder(sides: (u32, u32)) -> bool {
    sides.0 <= WEBP_ENCODER_MAX_SIDE && sides.1 <= WEBP_ENCODER_MAX_SIDE
}

/// The width and height that the `image` crate reads from the header of an
/// encoded picture, where it can read one: what `ImageReader::into_dimensions`
/// returns once the format is guessed from the bytes.
pub uninterp spec fn picture_sides(image: Seq<u8>) -> Option<(u32, u32)>;

/// The width and height of the still picture that the WebP library decodes
/// from the bytes, where it decodes one: what the `webp` crate's
/// `Decoder::decode` returns.
pub uninterp spec fn still_webp_sides(image: Seq<u8>) -> Option<(u32, u32)>;

/// The outcome of caesium's `convert_in_memory` on an encoded image and a
/// target format, with the parameters that `CSParameters::new` gives.
pub uninterp spec fn conversion(image: Seq<u8>, target: ImageFormat) -> Result<
    Seq<u8>,
    (u32, Seq<char>),
>;

/// The outcome of caesium's `compress_to_size_in_memory` on an encoded image,
/// a size limit in bytes and the choice to settle for the smallest encoding
/// found when none meets the limit, starting from the parameters that
/// `CSParameters::new` gives.
pub uninterp spec fn compression_to_size(
    image: Seq<u8>,
    max_size: usize,
    return_smallest: bool,
) -> Result<Seq<u8>, (u32, Seq<char>)>;

/// Whether the codec's conversion returns on these bytes: the picture in
/// them, if the header shows one, does not stop the WebP encoder.
pub open spec fn convertible(image: Seq<u8>) -> bool {
    picture_sides(image) matches Some(sides) ==> !stops_webp_encoder(sides)
}

/// Whether the codec's compression returns on these bytes: if they carry the
/// WebP mark, they decode as a still picture that the WebP encoder takes.
pub open spec fn compressible(image: Seq<u8>) -> bool {
    carries_webp_mark(image) ==> {
        &&& still_webp_sides(image) matches Some(sides)
        &&& fits_webp_encoder(sides)
    }
}

/// Reads a picture's sides with `image::ImageReader`: `with_guessed_format`,
/// then `into_dimensions`.
///
/// Trusted: what the reader finds depends on the bytes alone, so it is what
/// `picture_sides` names. The codec's conversion opens the bytes with this
/// reader too.
#[verifier::external_body]
fn read_picture_sides(image: &Vec<u8>) -> (sides: Option<(u32, u32)>)
    ensures
        sides == picture_sides(image@),
{
    match ImageReader::new(Cursor::new(image.as_slice())).with_guessed_format() {
        Ok(reader) => match reader.into_dimensions() {
            Ok(sides) => Some(sides),
            Err(_) => None,
        },
        Err(_) => None,
    }
}

/// Decodes a still WebP picture with `webp::Decoder::decode` and gives its
/// sides.
///
/// Trusted: whether the WebP library decodes the bytes, and to which sides,
/// depends on the bytes alone, so it is what `still_webp_sides` names. An
/// animation is not decoded. The codec's compression decodes a WebP file with
/// this library too.
#[verifier::external_body]
fn decode_still_webp(image: &Vec<u8>) -> (sides: Option<(u32, u32)>)
    ensures
        sides == still_webp_sides(image@),
{
    match Decoder::new(image.as_slice()).decode() {
        Some(picture) => Some((picture.width(), picture.height())),
        None => None,
    }
}

/// Calls `caesium::convert_in_memory` with default parameters.
///
/// Trusted: the call returns on a picture that does not stop the WebP
/// encoder. The codec reads the picture with the `image` reader; one with a
/// side over 16384 pixels it refuses with a failure when it writes it out
/// again, and one it cannot read it refuses before. Its outcome depends on the
/// image and the target format alone, so it is the one that `conversion`
/// names; the message of a failure is claimed for the WebP target only, since
/// on the way to JPEG a message can come from inside the JPEG library. Bytes
/// converted to WebP come straight from the WebP encoder, whose output opens
/// with the signature of a WebP file. Nothing else is claimed about the bytes.
#[verifier::external_body]
fn caesium_convert(image: Vec<u8>, target: ImageFormat) -> (result: Result<Vec<u8>, CodecError>)
    requires
        convertible(image@),
    ensures
        in_brief(outcome(result)) == in_brief(conversion(image@, target)),
        target == ImageFormat::WebP ==> outcome(result) == conversion(image@, target),
        target == ImageFormat::WebP ==> (result matches Ok(bytes) ==> has_webp_signature(bytes@)),
{
    let format = match target {
        ImageFormat::Jpeg => SupportedFileTypes::Jpeg,
        ImageFormat::Png => SupportedFileTypes::Png,
        ImageFormat::Gif => SupportedFileTypes::Gif,
        ImageFormat::WebP => SupportedFileTypes::WebP,
        ImageFormat::Tiff => SupportedFileTypes::Tiff,
    };
    match caesium::convert_in_memory(image, &CSParameters::new(), format) {
        Ok(bytes) => Ok(bytes),
        Err(error) => Err(CodecError { code: error.code, message: error.message }),
    }
}

/// Calls `caesium::compress_to_size_in_memory`, starting from default
/// parameters.
///
/// Trusted: the call returns where the limit can be doubled, which the codec
/// does to work out its tolerance, and the bytes are compressible. The codec
/// takes only bytes with the WebP mark for WebP; those it decodes with the
/// WebP library and encodes again, and any others it compresses as JPEG or
/// refuses with a failure. Its outcome depends on the image, the limit and
/// the flag alone, so it is the one that `compression_to_size` names; the
/// message of a failure inside the JPEG library is not claimed. Bytes with
/// the signature of a WebP file, where the codec compresses them, come back
/// from the WebP encoder with that signature. Nothing else is claimed about
/// the bytes: with `return_smallest` set they may be longer than the limit.
#[verifier::external_body]
fn caesium_compress_to_size(
    image: Vec<u8>,
    max_size: usize,
    return_smallest: bool,
) -> (result: Result<Vec<u8>, CodecError>)
    requires
        max_size * 2 <= usize::MAX,
        compressible(image@),
    ensures
        in_brief(outcome(result)) == in_brief(
            compression_to_size(image@, max_size, return_smallest),
        ),
        !(result matches Err(error) && error.code == INTERNAL_JPEG_FAILURE) ==> {
            outcome(result) == compression_to_size(image@, max_size, return_smallest)
        },
        has_webp_signature(image@) ==> (result matches Ok(bytes) ==> has_webp_signature(bytes@)),
{
    let mut parameters = CSParameters::new();
    match caesium::compress_to_size_in_memory(image, &mut parameters, max_size, return_smallest) {
        Ok(bytes) => Ok(bytes),
        Err(error) => Err(CodecError { code: error.code, message: error.message }),
    }
}

/// Tells whether the bytes carry the WebP mark.
fn has_webp_mark(bytes: &Vec<u8>) -> (marked: bool)
    ensures
        marked == carries_webp_mark(bytes@),
{
    bytes.len() > 11 && bytes[8] == 0x57 && bytes[9] == 0x45 && bytes[10] == 0x42
        && bytes[11] == 0x50
}

/// Converts a JPEG image to WebP.
///
/// The result is the codec's conversion of the payload's bytes to WebP, or the
/// codec's failure, code and message. Bytes that come back carry the
/// signature of a WebP file.
pub fn convert_jpeg_to_webp(payload: ConvertJpegToWebpArgs) -> (result: Result<Vec<u8>, CodecError>)
    requires
        convertible(payload.jpeg@),
    ensures
        outcome(result) == conversion(payload.jpeg@, ImageFormat::WebP),
        result matches Ok(bytes) ==> has_webp_signature(bytes@),
{
    caesium_convert(payload.jpeg, ImageFormat::WebP)
}

/// Converts a JPEG image to WebP where the codec can take it.
///
/// Gives `None`, without calling the codec, exactly for a picture whose
/// longer side is 16384 pixels: at that size a JPEG image reaches the WebP
/// encoder and is too large for it. Otherwise gives what
/// `convert_jpeg_to_webp` gives.
pub fn try_convert_jpeg_to_webp(payload: ConvertJpegToWebpArgs) -> (result: Option<
    Result<Vec<u8>, CodecError>,
>)
    ensures
        result is Some <==> convertible(payload.jpeg@),
        result matches Some(converted) ==> {
            &&& outcome(converted) == conversion(payload.jpeg@, ImageFormat::WebP)
            &&& converted matches Ok(bytes) ==> has_webp_signature(bytes@)
        },
{
    let stops = match read_picture_sides(&payload.jpeg) {
        Some((width, height)) => {
            width <= WEBP_WRITER_MAX_SIDE && height <= WEBP_WRITER_MAX_SIDE
                && (width > WEBP_ENCODER_MAX_SIDE || height > WEBP_ENCODER_MAX_SIDE)
        },
        None => false,
    };
    if stops {
        None
    } else {
        Some(convert_jpeg_to_webp(payload))
    }
}

/// Compresses a WebP image towards `max_size` bytes.
///
/// The result is the codec's compression of the payload's bytes to that size,
/// or the codec's failure; the failure's message is the codec's too, unless
/// the failure lies inside the JPEG library. Where no encoding meets the
/// limit, the smallest one found is returned rather than a failure, so the
/// result may be longer than `max_size`. The codec tells the format from the
/// bytes: a WebP file comes back as WebP, and a JPEG image, which the codec
/// compresses as well, as JPEG.
pub fn compress_webp_to_size(payload: CompressWebpToSizeArgs) -> (result: Result<Vec<u8>, CodecError>)
    requires
        payload.max_size * 2 <= usize::MAX,
        compressible(payload.webp@),
    ensures
        in_brief(outcome(result)) == in_brief(
            compression_to_size(payload.webp@, payload.max_size, true),
        ),
        !(result matches Err(error) && error.code == INTERNAL_JPEG_FAILURE) ==> {
            outcome(result) == compression_to_size(payload.webp@, payload.max_size, true)
        },
        has_webp_signature(payload.webp@) ==> {
            result matches Ok(bytes) ==> has_webp_signature(bytes@)
        },
{
    caesium_compress_to_size(payload.webp, payload.max_size, true)
}

/// Compresses a WebP image towards `max_size` bytes where the codec can take
/// it.
///
/// Gives `None`, without calling the codec, for a limit that cannot be
/// doubled and for bytes with the WebP mark that do not decode as a still
/// picture with sides of at most 16383 pixels: a damaged file, an animation,
/// a picture too large. Otherwise gives what `compress_webp_to_size` gives.
pub fn try_compress_webp_to_size(payload: CompressWebpToSizeArgs) -> (result: Option<
    Result<Vec<u8>, CodecError>,
>)
    ensures
        result is Some <==> payload.max_size * 2 <= usize::MAX && compressible(payload.webp@),
        result matches Some(compressed) ==> {
            &&& in_brief(outcome(compressed)) == in_brief(
                compression_to_size(payload.webp@, payload.max_size, true),
            )
            &&& !(compressed matches Err(error) && error.code == INTERNAL_JPEG_FAILURE) ==> {
                outcome(compressed) == compression_to_size(payload.webp@, payload.max_size, true)
            }
            &&& has_webp_signature(payload.webp@) ==> {
                compressed matches Ok(bytes) ==> has_webp_signature(bytes@)
            }
        },
{
    if payload.max_size > usize::MAX / 2 {
        return None;
    }
    let takes = if has_webp_mark(&payload.webp) {
        match decode_still_webp(&payload.webp) {
            Some((width, height)) => {
                width <= WEBP_ENCODER_MAX_SIDE && height <= WEBP_ENCODER_MAX_SIDE
            },
            None => false,
        }
    } else {
        true
    };
    if takes {
        Some(compress_webp_to_size(payload))
    } else {
        None
    }
}

} // verus!
