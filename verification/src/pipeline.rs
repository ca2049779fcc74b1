//! The conversion of one entry into a file of the target format.

use vstd::prelude::*;
use crate::codec::{
    addressable, bytes_outcome, encode_image, entry_decoding, entry_height, entry_width,
    flatten_rgb, image_encoding, png_bytes, png_encoding, rgb_flattening,
};
use crate::format::SupportedImages;

verus! {

/// What made a conversion step fail.
#[derive(Debug)]
pub enum Cause {
    /// The entry declares a size that the decoder cannot address.
    Oversized,
    /// The `ico` crate reported this error.
    Container(std::io::Error),
    /// The `image` crate reported this error.
    Codec(image::ImageError),
}

/// Why an entry was not converted.
#[derive(Debug)]
pub enum ConversionError {
    /// The image of the entry, or the intermediate image, could not be decoded.
    DecodeFailed(Cause),
    /// An encoder refused the image.
    EncodeFailed(Cause),
}

/// The intermediate PNG image of an entry: the entry decoded, then written
/// as PNG.
pub open spec fn png_of_entry(entry: ico::IconDirEntry) -> Result<Seq<u8>, ConversionError> {
    if !addressable(entry_width(entry), entry_height(entry)) {
        Err(ConversionError::DecodeFailed(Cause::Oversized))
    } else {
        match entry_decoding(entry) {
            Err(e) => Err(ConversionError::DecodeFailed(Cause::Container(e))),
            Ok(image) => match png_encoding(image) {
                Err(e) => Err(ConversionError::EncodeFailed(Cause::Container(e))),
                Ok(bytes) => Ok(bytes),
            },
        }
    }
}

/// The image that the encoder of a format is given: without its alpha
/// channel for JPEG, which has none, and as it is for the others.
pub open spec fn encoder_input(image: image::DynamicImage, format: SupportedImages)
    -> image::DynamicImage {
    if format == SupportedImages::Jpeg {
        rgb_flattening(image)
    } else {
        image
    }
}

/// The file in a format that comes of a decoding of the intermediate image.
pub open spec fn encoding_of(
    decoded: Result<image::DynamicImage, image::ImageError>,
    format: SupportedImages,
) -> Result<Seq<u8>, ConversionError> {
    match decoded {
        Err(e) => Err(ConversionError::DecodeFailed(Cause::Codec(e))),
        Ok(image) => match image_encoding(encoder_input(image, format), format) {
            Err(e) => Err(ConversionError::EncodeFailed(Cause::Codec(e))),
            Ok(bytes) => Ok(bytes),
        },
    }
}

/// Whether `outcome` is an outcome of turning the intermediate image `png`
/// into `format`. PNG is the image itself. For another format the image is
/// decoded first; whatever the decoder hands back, the outcome is the encoding
/// of that.
pub open spec fn reencodes_to(
    png: Seq<u8>,
    format: SupportedImages,
    outcome: Result<Seq<u8>, ConversionError>,
) -> bool {
    if format == SupportedImages::Png {
        outcome == Ok::<Seq<u8>, ConversionError>(png)
    } else {
        exists|decoded: Result<image::DynamicImage, image::ImageError>|
            outcome == #[trigger] encoding_of(decoded, format)
    }
}

/// Whether `outcome` is an outcome of converting `entry` into `format`: the
/// failure to make the intermediate image, or an outcome of re-encoding it.
pub open spec fn converts_to(
    entry: ico::IconDirEntry,
    format: SupportedImages,
    outcome: Result<Seq<u8>, ConversionError>,
) -> bool {
    match png_of_entry(entry) {
        Err(e) => outcome == Err::<Seq<u8>, ConversionError>(e),
        Ok(png) => reencodes_to(png, format, outcome),
    }
}

/// Decodes an entry and writes its image as PNG.
pub fn handle_ico(entry: &ico::IconDirEntry) -> (r: Result<Vec<u8>, ConversionError>)
    ensures
        bytes_outcome(r) == png_of_entry(*entry),
{
    if !fits_decoder(entry.width(), entry.height()) {
        return Err(ConversionError::DecodeFailed(Cause::Oversized));
    }
    match entry.decode() {
        Err(e) => Err(ConversionError::DecodeFailed(Cause::Container(e))),
        Ok(image) => match png_bytes(&image) {
            Err(e) => Err(ConversionError::EncodeFailed(Cause::Container(e))),
            Ok(bytes) => Ok(bytes),
        },
    }
}

/// Whether the decoder can address an image of this size.
pub fn fits_decoder(width: u32, height: u32) -> (fits: bool)
    ensures
        fits == addressable(width, height),
{
    assert(width * height <= 0xffff_ffff * 0xffff_ffff) by (nonlinear_arith)
        requires
            width <= 0xffff_ffff,
            height <= 0xffff_ffff,
    ;
    assert(4 * width * height == 4 * (width * height)) by (nonlinear_arith);
    let area: u64 = width as u64 * height as u64;
    area <= 0x3fff_ffff && width <= 0x07ff_ffff
}

/// Encodes what the decoder made of the intermediate image.
pub fn encode_decoded(
    decoded: Result<image::DynamicImage, image::ImageError>,
    format: SupportedImages,
) -> (r: Result<Vec<u8>, ConversionError>)
    ensures
        bytes_outcome(r) == encoding_of(decoded, format),
{
    match decoded {
        Err(e) => Err(ConversionError::DecodeFailed(Cause::Codec(e))),
        Ok(image) => {
            let encoded = match format {
                SupportedImages::Jpeg => {
                    let rgb = flatten_rgb(&image);
                    encode_image(&rgb, format)
                },
                _ => encode_image(&image, format),
            };
            match encoded {
                Err(e) => Err(ConversionError::EncodeFailed(Cause::Codec(e))),
                Ok(bytes) => Ok(bytes),
            }
        },
    }
}

/// Appends to `writer` the file in `format` of the intermediate PNG image
/// `buffer`. Where it fails, nothing is appended.
pub fn write_image(writer: &mut Vec<u8>, buffer: &[u8], format: SupportedImages) -> (r: Result<
    (),
    ConversionError,
>)
    ensures
        match r {
            Ok(_) => exists|file: Seq<u8>|
                {
                    &&& final(writer)@ == #[trigger] (old(writer)@ + file)
                    &&& reencodes_to(buffer@, format, Ok(file))
                },
            Err(e) => final(writer)@ == old(writer)@ && reencodes_to(buffer@, format, Err(e)),
        },
{
    match format {
        SupportedImages::Png => {
            writer.extend_from_slice(buffer);
            assert(writer@ == old(writer)@ + buffer@);
            Ok(())
        },
        _ => {
            let decoded = image::load_from_memory(buffer);
            match encode_decoded(decoded, format) {
                Err(e) => Err(e),
                Ok(file) => {
                    writer.extend_from_slice(file.as_slice());
                    assert(writer@ == old(writer)@ + file@);
                    Ok(())
                },
            }
        },
    }
}

/// Converts an entry into a file of the target format.
pub fn convert(entry: &ico::IconDirEntry, target: SupportedImages) -> (r: Result<
    Vec<u8>,
    ConversionError,
>)
    ensures
        converts_to(*entry, target, bytes_outcome(r)),
{
    let png = match handle_ico(entry) {
        Err(e) => {
            return Err(e);
        },
        Ok(png) => png,
    };
    let mut out: Vec<u8> = Vec::new();
    match write_image(&mut out, png.as_slice(), target) {
        Err(e) => Err(e),
        Ok(_) => {
            assert forall|file: Seq<u8>| out@ == Seq::<u8>::empty() + file implies out@
                == file by {
                assert(Seq::<u8>::empty() + file =~= file);
            }
            Ok(out)
        },
    }
}

/// PNG output is the intermediate image itself: nothing is decoded or
/// encoded again, and nothing can fail.
pub proof fn lemma_png_is_passed_through(png: Seq<u8>, outcome: Result<Seq<u8>, ConversionError>)
    requires
        reencodes_to(png, SupportedImages::Png, outcome),
    ensures
        outcome == Ok::<Seq<u8>, ConversionError>(png),
{
}

/// An entry converts to PNG in one way only: two conversions of it come out
/// the same, byte for byte or error for error.
pub proof fn lemma_png_conversion_repeats(
    entry: ico::IconDirEntry,
    first: Result<Seq<u8>, ConversionError>,
    second: Result<Seq<u8>, ConversionError>,
)
    requires
        converts_to(entry, SupportedImages::Png, first),
        converts_to(entry, SupportedImages::Png, second),
    ensures
        first == second,
{
}

/// An entry whose intermediate image cannot be made fails in the same way
/// for every format.
pub proof fn lemma_failed_entry_fails_alike(
    entry: ico::IconDirEntry,
    format: SupportedImages,
    outcome: Result<Seq<u8>, ConversionError>,
)
    requires
        png_of_entry(entry) is Err,
        converts_to(entry, format, outcome),
    ensures
        outcome == Err::<Seq<u8>, ConversionError>(png_of_entry(entry)->Err_0),
{
}

/// Once the intermediate image is decoded, the rest is fixed: two encodings
/// of one decoded image into one format come out the same, byte for byte.
pub proof fn lemma_encoding_repeats(
    decoded: Result<image::DynamicImage, image::ImageError>,
    format: SupportedImages,
    first: Result<Vec<u8>, ConversionError>,
    second: Result<Vec<u8>, ConversionError>,
)
    requires
        bytes_outcome(first) == encoding_of(decoded, format),
        bytes_outcome(second) == encoding_of(decoded, format),
    ensures
        bytes_outcome(first) == bytes_outcome(second),
{
}

/// A JPEG file knows nothing of the alpha channel: two images with the same
/// RGB flattening give the same file.
pub proof fn lemma_jpeg_ignores_alpha(first: image::DynamicImage, second: image::DynamicImage)
    requires
        rgb_flattening(first) == rgb_flattening(second),
    ensures
        encoding_of(Ok(first), SupportedImages::Jpeg) == encoding_of(
            Ok(second),
            SupportedImages::Jpeg,
        ),
{
}

/// The formats that keep an alpha channel are given the decoded image as it
/// is.
pub proof fn lemma_other_formats_keep_image(image: image::DynamicImage, format: SupportedImages)
    requires
        format != SupportedImages::Jpeg,
    ensures
        encoder_input(image, format) == image,
{
}

} // verus!
