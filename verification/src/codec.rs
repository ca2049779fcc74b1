//! The codecs of the `ico` and `image` crates, as the conversion pipeline
//! calls them. Nothing in this file is proved: each contract states what the
//! pipeline takes for granted of the code that it calls.

use vstd::prelude::*;
use crate::format::SupportedImages;

verus! {

/// An icon container (`ico::IconDir`): the entries of one ICO or CUR file.
#[verifier::external_type_specification]
#[verifier::external_body]
pub struct ExIconDir(ico::IconDir);

/// An entry of an icon container (`ico::IconDirEntry`): the header fields and
/// the encoded data of one image.
#[verifier::external_type_specification]
#[verifier::external_body]
pub struct ExIconDirEntry(ico::IconDirEntry);

/// A decoded icon image (`ico::IconImage`): a grid of RGBA pixels.
#[verifier::external_type_specification]
#[verifier::external_body]
pub struct ExIconImage(ico::IconImage);

/// The error of the `ico` crate (`std::io::Error`).
#[verifier::external_type_specification]
#[verifier::external_body]
pub struct ExIoError(std::io::Error);

/// A decoded image of any pixel layout (`image::DynamicImage`).
#[verifier::external_type_specification]
#[verifier::external_body]
pub struct ExDynamicImage(image::DynamicImage);

/// The error of the `image` crate (`image::ImageError`).
#[verifier::external_type_specification]
#[verifier::external_body]
pub struct ExImageError(image::ImageError);

/// What `ico::IconDir::read` makes of the bytes of a file: the container, or
/// the reason why the bytes are no ICO file.
pub uninterp spec fn container_reading(bytes: Seq<u8>) -> Result<ico::IconDir, std::io::Error>;

/// The entries of a container in the order of its directory, as
/// `ico::IconDir::entries` gives them.
pub uninterp spec fn container_entries(container: ico::IconDir) -> Seq<ico::IconDirEntry>;

/// The width of an entry in pixels, as `ico::IconDirEntry::width` gives it.
pub uninterp spec fn entry_width(entry: ico::IconDirEntry) -> u32;

/// The height of an entry in pixels, as `ico::IconDirEntry::height` gives it.
pub uninterp spec fn entry_height(entry: ico::IconDirEntry) -> u32;

/// What `ico::IconDirEntry::decode` makes of an entry: its image, or the
/// reason why its data cannot be decoded.
pub uninterp spec fn entry_decoding(entry: ico::IconDirEntry) -> Result<
    ico::IconImage,
    std::io::Error,
>;

/// The PNG file that `ico::IconImage::write_png` writes for an image, or the
/// reason why it writes none.
pub uninterp spec fn png_encoding(image: ico::IconImage) -> Result<Seq<u8>, std::io::Error>;

/// The image that `image::DynamicImage::to_rgb8` makes of an image: the same
/// pixels as 8-bit RGB, without an alpha channel.
pub uninterp spec fn rgb_flattening(image: image::DynamicImage) -> image::DynamicImage;

/// The file that `image::DynamicImage::write_to` writes for an image in a
/// format, or the reason why it writes none.
pub uninterp spec fn image_encoding(image: image::DynamicImage, format: SupportedImages) -> Result<
    Seq<u8>,
    image::ImageError,
>;

/// Whether the `ico` decoder can address an image of this size. It computes
/// the length of the pixel buffer, `4 * width * height`, and the bits of a
/// row, at most `32 * width + 7`, in 32-bit arithmetic.
pub open spec fn addressable(width: u32, height: u32) -> bool {
    &&& 4 * width * height <= u32::MAX
    &&& 32 * width + 7 <= u32::MAX
}

/// Calls `ico::IconDir::read` with a cursor over the bytes. It reads the
/// directory and the data of every entry, and decodes no image; the
/// container, or the error, depends on the bytes alone.
#[verifier::external_body]
pub(crate) fn read_container(bytes: &[u8]) -> (r: Result<ico::IconDir, std::io::Error>)
    ensures
        r == container_reading(bytes@),
{
    ico::IconDir::read(std::io::Cursor::new(bytes))
}

/// `ico::IconDir::entries` returns the entries of the container as a slice,
/// in the order of the directory.
pub assume_specification[ ico::IconDir::entries ](container: &ico::IconDir) -> (entries:
    &[ico::IconDirEntry])
    ensures
        entries@ == container_entries(*container),
;

/// `ico::IconDirEntry::width` returns the width that the entry holds: that
/// of its image data where the header of the data can be read, else that of
/// the directory.
pub assume_specification[ ico::IconDirEntry::width ](entry: &ico::IconDirEntry) -> (width: u32)
    ensures
        width == entry_width(*entry),
;

/// `ico::IconDirEntry::height` returns the height that the entry holds: that
/// of its image data where the header of the data can be read, else that of
/// the directory.
pub assume_specification[ ico::IconDirEntry::height ](entry: &ico::IconDirEntry) -> (height: u32)
    ensures
        height == entry_height(*entry),
;

/// `ico::IconDirEntry::decode` reads the PNG or BMP data of the entry and
/// returns the image or an error; the outcome depends on the entry alone. The
/// contract leaves out the entries whose size overflows the decoder's 32-bit
/// arithmetic: on those the BMP reader indexes out of bounds.
pub assume_specification[ ico::IconDirEntry::decode ](entry: &ico::IconDirEntry) -> (r:
    std::io::Result<ico::IconImage>)
    requires
        addressable(entry_width(*entry), entry_height(*entry)),
    ensures
        r == entry_decoding(*entry),
;

/// Calls `ico::IconImage::write_png` with a vector as the writer and returns
/// the vector. The bytes, or the error, depend on the image alone.
#[verifier::external_body]
pub(crate) fn png_bytes(image: &ico::IconImage) -> (r: Result<Vec<u8>, std::io::Error>)
    ensures
        bytes_outcome(r) == png_encoding(*image),
{
    let mut out: Vec<u8> = Vec::new();
    image.write_png(&mut out).map(|_| out)
}

/// `image::load_from_memory` guesses the format of the bytes and decodes
/// them. The guess goes through the format hooks that the process has
/// registered with the `image` crate, so nothing is claimed of the outcome.
pub assume_specification[ image::load_from_memory ](buffer: &[u8]) -> image::ImageResult<
    image::DynamicImage,
>;

/// Calls `image::DynamicImage::to_rgb8` and hands the RGB buffer back as a
/// `DynamicImage`. The result depends on the image alone.
#[verifier::external_body]
pub(crate) fn flatten_rgb(image: &image::DynamicImage) -> (rgb: image::DynamicImage)
    ensures
        rgb == rgb_flattening(*image),
{
    image::DynamicImage::ImageRgb8(image.to_rgb8())
}

/// Calls `image::DynamicImage::write_to` with an in-memory writer and the
/// `image::ImageFormat` of the same name as `format`, and returns what was
/// written. The bytes, or the error, depend on the image and the format alone.
#[verifier::external_body]
pub(crate) fn encode_image(image: &image::DynamicImage, format: SupportedImages) -> (r: Result<
    Vec<u8>,
    image::ImageError,
>)
    ensures
        bytes_outcome(r) == image_encoding(*image, format),
{
    let target = match format {
        SupportedImages::Png => image::ImageFormat::Png,
        SupportedImages::Jpeg => image::ImageFormat::Jpeg,
        SupportedImages::Bmp => image::ImageFormat::Bmp,
        SupportedImages::Webp => image::ImageFormat::WebP,
    };
    let mut out = std::io::Cursor::new(Vec::new());
    image.write_to(&mut out, target).map(|_| out.into_inner())
}

/// An outcome with its bytes as a sequence.
pub open spec fn bytes_outcome<E>(r: Result<Vec<u8>, E>) -> Result<Seq<u8>, E> {
    match r {
        Ok(bytes) => Ok(bytes@),
        Err(e) => Err(e),
    }
}

} // verus!
