//! Raster work: the geometry of the two artifacts of a photograph, and the
//! calls into the image codec that produce them.

use crate::error::RenderError;
use crate::gallery::GalleryOpts;
use vstd::prelude::*;

verus! {

#[verifier::external_type_specification]
#[verifier::external_body]
pub struct ExDynamicImage(image::DynamicImage);

#[verifier::external_type_specification]
#[verifier::external_body]
pub struct ExImageError(image::ImageError);

/// The width of a decoded image in pixels, as `image::DynamicImage::width`
/// reports it.
pub uninterp spec fn raster_width(raster: image::DynamicImage) -> nat;

/// The height of a decoded image in pixels, as `image::DynamicImage::height`
/// reports it.
pub uninterp spec fn raster_height(raster: image::DynamicImage) -> nat;

/// The size that `image::DynamicImage::resize` gives an image of
/// `width` x `height` pixels within the bounds `max_width` x `max_height`.
pub uninterp spec fn fitted_size(width: nat, height: nat, max_width: nat, max_height: nat) -> (
    nat,
    nat,
);

/// The resampling filters that the gallery uses.
#[derive(Debug, Clone, Copy, PartialEq, Eq, Structural)]
pub enum Filter {
    /// High quality, for the full image.
    Lanczos3,
    /// Fast, for the thumbnail.
    Nearest,
}

/// A rectangle of pixels within an image.
#[derive(Debug, Clone, Copy, PartialEq, Eq, Structural)]
pub struct Crop {
    pub x: u32,
    pub y: u32,
    pub width: u32,
    pub height: u32,
}

/// Whether an image of `width` x `height` pixels has at least one pixel, lies
/// within the bounds `max_width` x `max_height`, and reaches one of them.
pub open spec fn fits_within(width: nat, height: nat, max_width: nat, max_height: nat) -> bool {
    &&& 1 <= width <= max_width
    &&& 1 <= height <= max_height
    &&& width == max_width || height == max_height
}

/// Whether an image of `scaled_width` x `scaled_height` pixels has the
/// proportions of one of `width` x `height` pixels, as far as whole pixels
/// allow: each side is within a pixel of its true proportion.
pub open spec fn keeps_proportions(
    width: nat,
    height: nat,
    scaled_width: nat,
    scaled_height: nat,
) -> bool {
    &&& scaled_width * height - scaled_height * width <= width + height
    &&& scaled_height * width - scaled_width * height <= width + height
}

/// Whether rasters of `columns` x `rows` pixels, of up to four channels, can
/// be addressed on this machine.
pub open spec fn addressable(columns: nat, rows: nat) -> bool {
    4 * columns * rows <= usize::MAX
}

/// The width and the height of the image that
/// `image::load_from_memory_with_format` decodes from `data` as a JPEG file;
/// `None` where it reports an error.
pub uninterp spec fn jpeg_size(data: Seq<u8>) -> Option<(nat, nat)>;

/// Calls `image::load_from_memory_with_format` for the JPEG format. Trusted:
/// whether the bytes decode, and to what size, is a function of the bytes.
/// Nothing is claimed of the pixels.
#[verifier::external_body]
pub(crate) fn decode_jpeg(data: &[u8]) -> (decoded: Result<
    image::DynamicImage,
    image::ImageError,
>)
    ensures
        match decoded {
            Ok(raster) => jpeg_size(data@) == Some((raster_width(raster), raster_height(raster))),
            Err(_) => jpeg_size(data@) is None,
        },
{
    image::load_from_memory_with_format(data, image::ImageFormat::Jpeg)
}

/// Calls `image::DynamicImage::width`. Trusted: the result is the width that
/// the contracts of this module speak of.
#[verifier::external_body]
pub(crate) fn width(raster: &image::DynamicImage) -> (w: u32)
    ensures
        w == raster_width(*raster),
{
    raster.width()
}

/// Calls `image::DynamicImage::height`. Trusted: the result is the height
/// that the contracts of this module speak of.
#[verifier::external_body]
pub(crate) fn height(raster: &image::DynamicImage) -> (h: u32)
    ensures
        h == raster_height(*raster),
{
    raster.height()
}

/// Calls `image::DynamicImage::resize`. Trusted: the result has the size that
/// the codec computes from the size of `raster` and the bounds. As the codec
/// documents, that size is the largest of the proportions of `raster` that
/// lies within the bounds: it fits, it reaches one of the two bounds, each
/// side is within a pixel of its true proportion, and a square image fills a
/// square bound. The codec allocates an intermediate raster as wide as
/// `raster` and as high as the result, which the preconditions keep
/// addressable.
#[verifier::external_body]
pub(crate) fn resize(
    raster: &image::DynamicImage,
    max_width: u32,
    max_height: u32,
    filter: Filter,
) -> (scaled: image::DynamicImage)
    requires
        raster_width(*raster) >= 1,
        raster_height(*raster) >= 1,
        max_width >= 1,
        max_height >= 1,
        addressable(raster_width(*raster), max_height as nat),
        addressable(max_width as nat, max_height as nat),
    ensures
        (raster_width(scaled), raster_height(scaled)) == fitted_size(
            raster_width(*raster),
            raster_height(*raster),
            max_width as nat,
            max_height as nat,
        ),
        fits_within(
            raster_width(scaled),
            raster_height(scaled),
            max_width as nat,
            max_height as nat,
        ),
        keeps_proportions(
            raster_width(*raster),
            raster_height(*raster),
            raster_width(scaled),
            raster_height(scaled),
        ),
        raster_width(*raster) == raster_height(*raster) && max_width == max_height ==> raster_width(
            scaled,
        ) == max_width && raster_height(scaled) == max_height,
{
    let filter = match filter {
        Filter::Lanczos3 => image::imageops::FilterType::Lanczos3,
        Filter::Nearest => image::imageops::FilterType::Nearest,
    };
    raster.resize(max_width, max_height, filter)
}

/// Calls `image::DynamicImage::crop_imm`. Trusted: the result is as large as
/// the part of the rectangle that lies within `raster`.
#[verifier::external_body]
pub(crate) fn crop_imm(raster: &image::DynamicImage, crop: Crop) -> (cut: image::DynamicImage)
    ensures
        raster_width(cut) == clipped(crop.x as nat, crop.width as nat, raster_width(*raster)),
        raster_height(cut) == clipped(crop.y as nat, crop.height as nat, raster_height(*raster)),
{
    raster.crop_imm(crop.x, crop.y, crop.width, crop.height)
}

/// How much of a span of `length` pixels from `start` lies within `extent`
/// pixels.
pub open spec fn clipped(start: nat, length: nat, extent: nat) -> nat {
    let from = if start <= extent { start } else { extent };
    if length <= extent - from {
        length
    } else {
        (extent - from) as nat
    }
}

/// The smaller of two numbers.
pub open spec fn smaller(a: int, b: int) -> int {
    if a <= b {
        a
    } else {
        b
    }
}

/// The square cut from the middle of an image of `width` x `height` pixels:
/// its edge is the shorter side, and what the longer side has in excess is
/// left out in equal parts before and behind it.
pub open spec fn thumbnail_crop_of(width: u32, height: u32) -> Crop {
    let edge = smaller(width as int, height as int);
    Crop {
        x: ((width - edge) / 2) as u32,
        y: ((height - edge) / 2) as u32,
        width: edge as u32,
        height: edge as u32,
    }
}

/// Computes the square that is cut from the middle of an image before it is
/// scaled down to a thumbnail.
pub fn thumbnail_crop(width: u32, height: u32) -> (crop: Crop)
    ensures
        crop == thumbnail_crop_of(width, height),
{
    let edge: u32 = if width <= height {
        width
    } else {
        height
    };
    Crop { x: (width - edge) / 2, y: (height - edge) / 2, width: edge, height: edge }
}

/// The thumbnail crop is a square whose edge is the shorter side of the
/// image; it lies within the image, touches both borders of the shorter
/// side, and is centred on the longer one: what is left out before it and
/// behind it differs by one pixel at most.
pub proof fn lemma_thumbnail_crop_centred(width: u32, height: u32)
    ensures
        ({
            let crop = thumbnail_crop_of(width, height);
            let right = width - crop.x - crop.width;
            let below = height - crop.y - crop.height;
            &&& crop.width == crop.height
            &&& crop.width == smaller(width as int, height as int)
            &&& crop.x + crop.width <= width
            &&& crop.y + crop.height <= height
            &&& crop.x <= right <= crop.x + 1
            &&& crop.y <= below <= crop.y + 1
            &&& crop.x == 0 || crop.y == 0
            &&& clipped(crop.x as nat, crop.width as nat, width as nat) == crop.width
            &&& clipped(crop.y as nat, crop.height as nat, height as nat) == crop.height
        }),
{
}

/// The two artifacts of one photograph, as decoded images.
pub struct Rasters {
    pub full: image::DynamicImage,
    pub thumbnail: image::DynamicImage,
}

/// Why an image of `width` x `height` pixels cannot be transformed under
/// `opts`, if it cannot.
pub open spec fn transform_refusal(width: nat, height: nat, opts: GalleryOpts) -> Option<
    RenderError,
> {
    let edge = smaller(width as int, height as int) as nat;
    if width == 0 || height == 0 {
        Some(RenderError::EmptyImage)
    } else if opts.max_width == 0 || opts.max_height == 0 || opts.thumbnail_size == 0 {
        Some(RenderError::EmptyBounds)
    } else if !addressable(width, opts.max_height as nat) || !addressable(
        opts.max_width as nat,
        opts.max_height as nat,
    ) || !addressable(edge, opts.thumbnail_size as nat) || !addressable(
        opts.thumbnail_size as nat,
        opts.thumbnail_size as nat,
    ) {
        Some(RenderError::TooLarge)
    } else {
        None
    }
}

/// Tells whether rasters of `columns` x `rows` pixels can be addressed.
fn is_addressable(columns: u32, rows: u32) -> (fits: bool)
    ensures
        fits == addressable(columns as nat, rows as nat),
{
    assert(4 * (columns as nat) * (rows as nat) == 4 * ((columns as nat) * (rows as nat)))
        by (nonlinear_arith);
    assert((columns as nat) * (rows as nat) <= 0xffff_ffff * 0xffff_ffff) by (nonlinear_arith)
        requires
            columns <= 0xffff_ffff,
            rows <= 0xffff_ffff,
    ;
    let cells: u128 = 4 * (columns as u128 * rows as u128);
    cells <= usize::MAX as u128
}

/// Whether `full` and `thumbnail` have the sizes of the two artifacts of an
/// image of `width` x `height` pixels under `opts`.
///
/// The full image has the size that the codec computes; it lies within the
/// bounds, reaches one of them, and keeps the proportions of the image. The
/// thumbnail has the size that the codec gives the square cut from the
/// middle of the image, whose edge is the shorter side: `thumbnail_size`
/// pixels on each edge.
pub open spec fn is_rendition(
    width: nat,
    height: nat,
    opts: GalleryOpts,
    full: image::DynamicImage,
    thumbnail: image::DynamicImage,
) -> bool {
    &&& (raster_width(full), raster_height(full)) == fitted_size(
        width,
        height,
        opts.max_width as nat,
        opts.max_height as nat,
    )
    &&& fits_within(
        raster_width(full),
        raster_height(full),
        opts.max_width as nat,
        opts.max_height as nat,
    )
    &&& keeps_proportions(width, height, raster_width(full), raster_height(full))
    &&& (raster_width(thumbnail), raster_height(thumbnail)) == fitted_size(
        smaller(width as int, height as int) as nat,
        smaller(width as int, height as int) as nat,
        opts.thumbnail_size as nat,
        opts.thumbnail_size as nat,
    )
    &&& raster_width(thumbnail) == opts.thumbnail_size
    &&& raster_height(thumbnail) == opts.thumbnail_size
}

/// Derives the full image and the thumbnail from a decoded photograph.
///
/// The full image is the photograph scaled, with its aspect ratio kept, to
/// fit within `max_width` x `max_height`. The thumbnail is the square cut
/// from the middle of the photograph, scaled to `thumbnail_size` on each
/// edge.
pub fn transform(source: &image::DynamicImage, opts: &GalleryOpts) -> (out: Result<
    Rasters,
    RenderError,
>)
    ensures
        match out {
            Ok(rasters) => {
                &&& transform_refusal(raster_width(*source), raster_height(*source), *opts)
                    is None
                &&& is_rendition(
                    raster_width(*source),
                    raster_height(*source),
                    *opts,
                    rasters.full,
                    rasters.thumbnail,
                )
            },
            Err(error) => transform_refusal(
                raster_width(*source),
                raster_height(*source),
                *opts,
            ) == Some(error),
        },
{
    let w = width(source);
    let h = height(source);
    if w == 0 || h == 0 {
        return Err(RenderError::EmptyImage);
    }
    if opts.max_width == 0 || opts.max_height == 0 || opts.thumbnail_size == 0 {
        return Err(RenderError::EmptyBounds);
    }
    let crop = thumbnail_crop(w, h);
    if !is_addressable(w, opts.max_height) || !is_addressable(opts.max_width, opts.max_height)
        || !is_addressable(crop.width, opts.thumbnail_size) || !is_addressable(
        opts.thumbnail_size,
        opts.thumbnail_size,
    ) {
        return Err(RenderError::TooLarge);
    }
    let full = resize(source, opts.max_width, opts.max_height, Filter::Lanczos3);
    proof {
        lemma_thumbnail_crop_centred(w, h);
    }
    let square = crop_imm(source, crop);
    let thumbnail = resize(&square, opts.thumbnail_size, opts.thumbnail_size, Filter::Nearest);
    Ok(Rasters { full, thumbnail })
}

} // verus!
