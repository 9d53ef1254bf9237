//! The processing stage: batches, the outcome of decoding and thumbnailing one
//! image, and the thumbnail as an embeddable data string.

use base64::Engine;
use vstd::prelude::*;
use vstd::string::StringExecFns;
use crate::discovery::{DiscoveredImage, DiscoveredImageView};
use crate::metadata::{FitsMetadata, FitsMetadataView};
use crate::text::{opt_view, owned};

verus! {

/// The largest number of images that are decoded and thumbnailed at once.
pub const MAX_PARALLEL_PROCESSING: usize = 4;

/// The number of images of one batch.
pub const BATCH_SIZE: usize = 100;

/// The largest width and height of a thumbnail.
pub const THUMBNAIL_SIZE: u32 = 300;

/// The quality of a thumbnail, from 0 to 100.
pub const THUMBNAIL_QUALITY: u8 = 80;

/// The largest width and height that can be encoded.
pub const LARGEST_ENCODED_SIDE: u32 = 65535;

/// The number of batches that `total` images make.
pub open spec fn batches_of(total: nat) -> nat {
    (total + BATCH_SIZE - 1) as nat / BATCH_SIZE as nat
}

/// The number of batches that `total` images make.
pub fn batch_count(total: usize) -> (n: usize)
    ensures
        n == batches_of(total as nat),
{
    if total % BATCH_SIZE == 0 {
        total / BATCH_SIZE
    } else {
        total / BATCH_SIZE + 1
    }
}

/// The positions `(from, to)` of the images of batch `index`, which is
/// counted from zero: batch after batch of `BATCH_SIZE` images, the last one
/// with what is left.
pub fn batch_bounds(total: usize, index: usize) -> (r: (usize, usize))
    requires
        index < batches_of(total as nat),
    ensures
        r.0 == index * BATCH_SIZE,
        r.1 == if (index + 1) * BATCH_SIZE <= total {
            (index + 1) * BATCH_SIZE
        } else {
            total as int
        },
        r.0 < r.1 <= total,
{
    let from = index * BATCH_SIZE;
    let to = if total - from >= BATCH_SIZE {
        from + BATCH_SIZE
    } else {
        total
    };
    (from, to)
}

/// The whole percentage that `current` is of `total`, an empty total counting
/// as one, and never more than 100.
pub open spec fn percent_of(current: nat, total: nat) -> nat {
    let share = current * 100 / (if total == 0 {
        1
    } else {
        total
    });
    if share > 100 {
        100
    } else {
        share
    }
}

/// The whole percentage that `current` is of `total`.
pub fn progress_percent(current: usize, total: usize) -> (p: u8)
    ensures
        p == percent_of(current as nat, total as nat),
        p <= 100,
{
    let whole: u128 = if total == 0 {
        1
    } else {
        total as u128
    };
    let scaled: u128 = current as u128 * 100;
    let share: u128 = scaled / whole;
    if share > 100 {
        100
    } else {
        share as u8
    }
}

/// The text of a byte string in base64 with the standard alphabet and
/// padding.
pub uninterp spec fn base64_text(bytes: Seq<u8>) -> Seq<char>;

/// Calls `Engine::encode` of `base64::engine::general_purpose::STANDARD`. The
/// result is named `base64_text`.
#[verifier::external_body]
fn encode_base64(bytes: &Vec<u8>) -> (text: String)
    ensures
        text@ == base64_text(bytes@),
{
    base64::engine::general_purpose::STANDARD.encode(bytes)
}

/// The data string that embeds a JPEG image.
pub open spec fn data_url_of(jpeg: Seq<u8>) -> Seq<char> {
    "data:image/jpeg;base64,"@ + base64_text(jpeg)
}

/// The data string that embeds a JPEG image.
pub fn thumbnail_data_url(jpeg: &Vec<u8>) -> (url: String)
    ensures
        url@ == data_url_of(jpeg@),
{
    let mut url = owned("data:image/jpeg;base64,");
    let encoded = encode_base64(jpeg);
    url.append(encoded.as_str());
    url
}

/// The error type of the `image` crate, carried through without looking inside.
#[verifier::external_type_specification]
#[verifier::external_body]
pub struct ExImageError(image::ImageError);

/// The bytes of the JPEG file that encodes an image of 8-bit RGB pixels at a
/// quality.
pub uninterp spec fn jpeg_encoding(pixels: Seq<u8>, width: u32, height: u32, quality: u8) -> Seq<
    u8,
>;

/// Whether `pixels` holds three bytes for each pixel of an image of this size.
pub open spec fn fills_image(pixels: Seq<u8>, width: u32, height: u32) -> bool {
    pixels.len() == width * height * 3
}

/// Whether an image of this size can be encoded: neither side is zero or
/// longer than `LARGEST_ENCODED_SIDE`.
pub open spec fn encodable_size(width: u32, height: u32) -> bool {
    1 <= width <= LARGEST_ENCODED_SIDE && 1 <= height <= LARGEST_ENCODED_SIDE
}

/// Calls `image::codecs::jpeg::JpegEncoder::new_with_quality` on an empty
/// buffer and then `encode` for 8-bit RGB pixels. The encoder reports an error
/// exactly for a size that has a side of zero or of more than 65535 pixels;
/// the bytes it writes otherwise are named `jpeg_encoding`. Left out are the
/// inputs on which the encoder panics: a pixel buffer of another length than
/// the size asks for, and a width whose three bytes a pixel do not fit the
/// machine's addresses.
#[verifier::external_body]
fn encode_jpeg(pixels: &Vec<u8>, width: u32, height: u32, quality: u8) -> (r: Result<
    Vec<u8>,
    image::ImageError,
>)
    requires
        fills_image(pixels@, width, height),
        width * 3 <= usize::MAX,
    ensures
        r is Ok <==> encodable_size(width, height),
        r matches Ok(bytes) ==> bytes@ == jpeg_encoding(pixels@, width, height, quality),
{
    let mut out = Vec::new();
    image::codecs::jpeg::JpegEncoder::new_with_quality(&mut out, quality).encode(
        pixels,
        width,
        height,
        image::ExtendedColorType::Rgb8,
    )?;
    Ok(out)
}

/// Calls `to_string` on an `image::ImageError`, which gives the error's
/// message. Nothing is claimed of the text.
#[verifier::external_body]
fn image_error_text(error: &image::ImageError) -> (text: String) {
    error.to_string()
}

/// Whether `pixels` holds three bytes for each pixel of an image of this size.
fn check_fills_image(pixels: &Vec<u8>, width: u32, height: u32) -> (r: bool)
    ensures
        r == fills_image(pixels@, width, height),
{
    assert(width * height <= 0xffff_ffff * 0xffff_ffff) by (nonlinear_arith)
        requires
            width <= 0xffff_ffff,
            height <= 0xffff_ffff,
    ;
    let area: u128 = width as u128 * height as u128;
    let wanted: u128 = area * 3;
    pixels.len() as u128 == wanted
}

/// Encodes 8-bit RGB pixels as a JPEG at `THUMBNAIL_QUALITY` and wraps it as a
/// data string. It fails, with a message that names the failure, where the
/// pixels do not fill the size given or the size cannot be encoded.
pub fn encode_thumbnail(pixels: &Vec<u8>, width: u32, height: u32) -> (r: Result<String, String>)
    ensures
        match r {
            Ok(url) => fills_image(pixels@, width, height) && encodable_size(width, height)
                && url@ == data_url_of(jpeg_encoding(pixels@, width, height, THUMBNAIL_QUALITY)),
            Err(message) => !(fills_image(pixels@, width, height) && encodable_size(width, height))
                && crate::text::has_prefix(message@, "Failed to encode thumbnail: "@),
        },
{
    let mut message = owned("Failed to encode thumbnail: ");
    let ghost prefix = message@;
    if !check_fills_image(pixels, width, height) {
        message.append("the pixels do not fill the image");
        assert(message@.subrange(0, prefix.len() as int) =~= prefix);
        return Err(message);
    }
    if width as u128 * 3 > usize::MAX as u128 {
        message.append("the image is too wide");
        assert(message@.subrange(0, prefix.len() as int) =~= prefix);
        return Err(message);
    }
    match encode_jpeg(pixels, width, height, THUMBNAIL_QUALITY) {
        Ok(jpeg) => Ok(thumbnail_data_url(&jpeg)),
        Err(error) => {
            let text = image_error_text(&error);
            message.append(text.as_str());
            assert(message@.subrange(0, prefix.len() as int) =~= prefix);
            Err(message)
        },
    }
}

/// A bitmap of the `image` crate, carried through without looking inside.
#[verifier::external_type_specification]
#[verifier::external_body]
pub struct ExDynamicImage(image::DynamicImage);

/// Width and height of a bitmap.
pub uninterp spec fn sides_of(image: image::DynamicImage) -> (u32, u32);

/// Calls `image::DynamicImage::width` and `height`. The result is named
/// `sides_of`.
#[verifier::external_body]
fn image_sides(image: &image::DynamicImage) -> (r: (u32, u32))
    ensures
        r == sides_of(*image),
{
    (image.width(), image.height())
}

/// The 8-bit RGB pixels, the width and the height of a bitmap scaled to fit a
/// square of `side` pixels. The pixels may be followed by bytes that belong
/// to no pixel.
pub uninterp spec fn scaled_image(image: image::DynamicImage, side: u32) -> (Seq<u8>, u32, u32);

/// Calls `image::DynamicImage::resize` with the Lanczos filter of three lobes
/// for a square of `side` pixels, and hands out the result as 8-bit RGB pixels
/// with its width and height; the result is named `scaled_image`. The bitmap
/// is scaled, with its aspect ratio kept, to the largest size that fits the
/// square, and no side becomes zero; so both sides are between 1 and `side`.
/// A bitmap of the size of the square is handed out as it is, with its buffer
/// as it is: there are at least three bytes for each pixel, and there may be
/// more. A bitmap with a side of zero is left out.
#[verifier::external_body]
fn scaled_rgb(image: &image::DynamicImage, side: u32) -> (r: (Vec<u8>, u32, u32))
    requires
        side >= 1,
        sides_of(*image).0 >= 1,
        sides_of(*image).1 >= 1,
    ensures
        (r.0@, r.1, r.2) == scaled_image(*image, side),
        r.0@.len() >= r.1 * r.2 * 3,
        1 <= r.1 <= side,
        1 <= r.2 <= side,
{
    let rgb = image.resize(side, side, image::imageops::FilterType::Lanczos3).to_rgb8();
    let (width, height) = (rgb.width(), rgb.height());
    (rgb.into_raw(), width, height)
}

/// The width and height of the thumbnail of a bitmap.
pub open spec fn thumbnail_sides(image: image::DynamicImage) -> (u32, u32) {
    (scaled_image(image, THUMBNAIL_SIZE).1, scaled_image(image, THUMBNAIL_SIZE).2)
}

/// The pixels of the thumbnail of a bitmap: those of the bitmap scaled to fit
/// a square of `THUMBNAIL_SIZE` pixels, three bytes for each pixel.
pub open spec fn thumbnail_pixels(image: image::DynamicImage) -> Seq<u8> {
    scaled_image(image, THUMBNAIL_SIZE).0.take(
        thumbnail_sides(image).0 * thumbnail_sides(image).1 * 3,
    )
}

/// The thumbnail of a bitmap as a data string: the JPEG, at the thumbnail
/// quality, of the bitmap scaled to fit a square of `THUMBNAIL_SIZE` pixels.
pub open spec fn thumbnail_of(image: image::DynamicImage) -> Seq<char> {
    data_url_of(
        jpeg_encoding(
            thumbnail_pixels(image),
            thumbnail_sides(image).0,
            thumbnail_sides(image).1,
            THUMBNAIL_QUALITY,
        ),
    )
}

/// Makes the thumbnail of a preview: the bitmap is scaled, with its aspect
/// ratio kept, to fit a square of `THUMBNAIL_SIZE` pixels, encoded as JPEG at
/// `THUMBNAIL_QUALITY` and wrapped as a data string. Neither side of the
/// thumbnail is longer than `THUMBNAIL_SIZE`. It fails only for a bitmap with
/// a side of zero.
pub fn generate_thumbnail(image: &image::DynamicImage) -> (r: Result<String, String>)
    ensures
        match r {
            Ok(url) => {
                &&& sides_of(*image).0 >= 1 && sides_of(*image).1 >= 1
                &&& url@ == thumbnail_of(*image)
                &&& fills_image(
                    thumbnail_pixels(*image),
                    thumbnail_sides(*image).0,
                    thumbnail_sides(*image).1,
                )
                &&& 1 <= thumbnail_sides(*image).0 <= THUMBNAIL_SIZE
                &&& 1 <= thumbnail_sides(*image).1 <= THUMBNAIL_SIZE
            },
            Err(message) => (sides_of(*image).0 == 0 || sides_of(*image).1 == 0)
                && crate::text::has_prefix(message@, "Failed to encode thumbnail: "@),
        },
{
    let sides = image_sides(image);
    if sides.0 == 0 || sides.1 == 0 {
        let mut message = owned("Failed to encode thumbnail: ");
        let ghost prefix = message@;
        message.append("the image is empty");
        assert(message@.subrange(0, prefix.len() as int) =~= prefix);
        return Err(message);
    }
    let (mut pixels, width, height) = scaled_rgb(image, THUMBNAIL_SIZE);
    assert(width * height <= 300 * 300) by (nonlinear_arith)
        requires
            width <= 300,
            height <= 300,
    ;
    let needed: usize = (width as usize) * (height as usize) * 3;
    pixels.truncate(needed);
    assert(pixels@ =~= thumbnail_pixels(*image));
    encode_thumbnail(&pixels, width, height)
}

/// An image after the processing stage.
pub struct ProcessedImage {
    /// The image as it was found.
    pub discovered: DiscoveredImage,
    /// The metadata of its raw frame, if it has one that could be decoded.
    pub metadata: Option<FitsMetadata>,
    /// The thumbnail of its preview, if it has one that could be made.
    pub thumbnail: Option<String>,
    /// Why the image could not be processed, if it could not.
    pub error: Option<String>,
}

/// An image after the processing stage as mathematical values.
pub struct ProcessedImageView {
    pub discovered: DiscoveredImageView,
    pub metadata: Option<FitsMetadataView>,
    pub thumbnail: Option<Seq<char>>,
    pub error: Option<Seq<char>>,
}

/// The view of optional metadata.
pub open spec fn opt_metadata_view(o: Option<FitsMetadata>) -> Option<FitsMetadataView> {
    match o {
        Some(m) => Some(m@),
        None => None,
    }
}

impl View for ProcessedImage {
    type V = ProcessedImageView;

    open spec fn view(&self) -> ProcessedImageView {
        ProcessedImageView {
            discovered: self.discovered@,
            metadata: opt_metadata_view(self.metadata),
            thumbnail: opt_view(self.thumbnail),
            error: opt_view(self.error),
        }
    }
}

/// What decoding a raw frame gave, as mathematical values.
pub open spec fn decode_view(o: Option<Result<FitsMetadata, String>>) -> Option<
    Result<FitsMetadataView, Seq<char>>,
> {
    match o {
        Some(Ok(m)) => Some(Ok(m@)),
        Some(Err(e)) => Some(Err(e@)),
        None => None,
    }
}

/// What making a thumbnail gave, as mathematical values.
pub open spec fn thumbnail_view(o: Option<Result<String, String>>) -> Option<
    Result<Seq<char>, Seq<char>>,
> {
    match o {
        Some(Ok(t)) => Some(Ok(t@)),
        Some(Err(e)) => Some(Err(e@)),
        None => None,
    }
}

/// The message for a raw frame that could not be decoded.
pub open spec fn parse_failure_text(path: Seq<char>, reason: Seq<char>) -> Seq<char> {
    "Failed to parse "@ + path + ": "@ + reason
}

/// The message for an image whose processing broke off.
pub open spec fn task_failure_text(reason: Seq<char>) -> Seq<char> {
    "Task panicked: "@ + reason
}

/// The image after processing. A raw frame that cannot be decoded fails the
/// image, and no thumbnail is kept then. A thumbnail that cannot be made does
/// not: the image goes on without one.
pub open spec fn processed_of(
    discovered: DiscoveredImageView,
    decoded: Option<Result<FitsMetadataView, Seq<char>>>,
    thumbnail: Option<Result<Seq<char>, Seq<char>>>,
) -> ProcessedImageView {
    let decoded = if discovered.fits_path is Some {
        decoded
    } else {
        None
    };
    let thumbnail = if discovered.jpeg_path is Some {
        thumbnail
    } else {
        None
    };
    match decoded {
        Some(Err(reason)) => ProcessedImageView {
            discovered,
            metadata: None,
            thumbnail: None,
            error: Some(parse_failure_text(discovered.fits_path->0, reason)),
        },
        _ => ProcessedImageView {
            discovered,
            metadata: match decoded {
                Some(Ok(m)) => Some(m),
                _ => None,
            },
            thumbnail: match thumbnail {
                Some(Ok(t)) => Some(t),
                _ => None,
            },
            error: None,
        },
    }
}

/// Whether decoding the raw frame of an image failed.
pub open spec fn decode_failed(
    discovered: DiscoveredImageView,
    decoded: Option<Result<FitsMetadataView, Seq<char>>>,
) -> bool {
    discovered.fits_path is Some && decoded is Some && decoded->0 is Err
}

/// Whether a thumbnail is to be made for an image, given what decoding its raw
/// frame gave: it has a preview, and decoding did not fail.
pub fn needs_thumbnail(
    discovered: &DiscoveredImage,
    decoded: &Option<Result<FitsMetadata, String>>,
) -> (r: bool)
    ensures
        r == (discovered@.jpeg_path is Some && !decode_failed(discovered@, decode_view(*decoded))),
{
    if discovered.jpeg_path.is_none() {
        return false;
    }
    if discovered.fits_path.is_none() {
        return true;
    }
    match decoded {
        Some(Err(_)) => false,
        _ => true,
    }
}

/// Puts together what processing one image gave. `decoded` is what decoding
/// its raw frame gave and `thumbnail` what thumbnailing its preview gave, each
/// absent where the image has no such file.
pub fn process_single_image(
    discovered: DiscoveredImage,
    decoded: Option<Result<FitsMetadata, String>>,
    thumbnail: Option<Result<String, String>>,
) -> (r: ProcessedImage)
    ensures
        r@ == processed_of(discovered@, decode_view(decoded), thumbnail_view(thumbnail)),
{
    let has_raw = discovered.fits_path.is_some();
    let has_preview = discovered.jpeg_path.is_some();
    let mut metadata: Option<FitsMetadata> = None;
    if has_raw {
        match decoded {
            Some(Err(reason)) => {
                let mut message = owned("Failed to parse ");
                match &discovered.fits_path {
                    Some(path) => {
                        message.append(path.as_str());
                    },
                    None => {},
                }
                message.append(": ");
                message.append(reason.as_str());
                return ProcessedImage {
                    discovered,
                    metadata: None,
                    thumbnail: None,
                    error: Some(message),
                };
            },
            Some(Ok(m)) => {
                metadata = Some(m);
            },
            None => {},
        }
    }
    let kept: Option<String> = if has_preview {
        match thumbnail {
            Some(Ok(t)) => Some(t),
            _ => None,
        }
    } else {
        None
    };
    ProcessedImage { discovered, metadata, thumbnail: kept, error: None }
}

/// The outcome for an image whose processing broke off before it gave
/// anything.
pub fn task_failure(discovered: DiscoveredImage, reason: &str) -> (r: ProcessedImage)
    ensures
        r@ == (ProcessedImageView {
            discovered: discovered@,
            metadata: None,
            thumbnail: None,
            error: Some(task_failure_text(reason@)),
        }),
{
    let mut message = owned("Task panicked: ");
    message.append(reason);
    ProcessedImage { discovered, metadata: None, thumbnail: None, error: Some(message) }
}

} // verus!
