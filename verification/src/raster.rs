//! The trusted boundary to the `image` crate.
//!
//! Nothing in this file is proved. Each item states what the `image` crate
//! does, in terms that the rest of the library reasons with. The functions
//! are private to the crate and carry one call into `image` each.

use crate::format::{ColorFormat, Pixel};
use crate::geometry::{scaled_to_fit, scaling_within_budget, within_pixel_budget};
use image::imageops::FilterType;
use image::{ColorType, DynamicImage};
use vstd::prelude::*;

verus! {

/// A decoded picture, as the `image` crate holds it: a grid of pixels in one
/// of ten layouts. Its inside is not visible here; the spec functions below
/// name what can be observed of it.
#[verifier::external_type_specification]
#[verifier::external_body]
pub struct ExDynamicImage(DynamicImage);

/// The number of pixel columns: what `DynamicImage::width` returns.
pub uninterp spec fn image_width(img: DynamicImage) -> u32;

/// The number of pixel rows: what `DynamicImage::height` returns.
pub uninterp spec fn image_height(img: DynamicImage) -> u32;

/// The pixel layout: what `DynamicImage::color` returns, or `None` for a
/// layout that [`ColorFormat`] does not list.
pub uninterp spec fn image_format(img: DynamicImage) -> Option<ColorFormat>;

/// The pixel in column `x` and row `y`: what `GenericImageView::get_pixel`
/// returns for a position inside the picture.
pub uninterp spec fn image_pixel(img: DynamicImage, x: int, y: int) -> Pixel;

/// What `DynamicImage::grayscale` returns.
pub uninterp spec fn grayscale_of(img: DynamicImage) -> DynamicImage;

/// What `DynamicImage::into_rgb8` returns, as a `DynamicImage`.
pub uninterp spec fn rgb8_of(img: DynamicImage) -> DynamicImage;

/// What `DynamicImage::into_rgba8` returns, as a `DynamicImage`.
pub uninterp spec fn rgba8_of(img: DynamicImage) -> DynamicImage;

/// What `DynamicImage::into_rgb16` returns, as a `DynamicImage`.
pub uninterp spec fn rgb16_of(img: DynamicImage) -> DynamicImage;

/// What `DynamicImage::into_rgba16` returns, as a `DynamicImage`.
pub uninterp spec fn rgba16_of(img: DynamicImage) -> DynamicImage;

/// The picture that `imageops::overlay` makes of `bottom` when it draws
/// `top` onto it with the top-left corner of `top` in column `x` and row
/// `y`.
pub uninterp spec fn overlaid(
    bottom: DynamicImage,
    top: DynamicImage,
    x: u32,
    y: u32,
) -> DynamicImage;

/// Whether the position lies on a picture of the size of `img`.
pub open spec fn on_image(img: DynamicImage, px: int, py: int) -> bool {
    0 <= px < image_width(img) && 0 <= py < image_height(img)
}

/// Whether `top`, drawn with its top-left corner in column `x` and row `y`,
/// covers the pixel in column `px` and row `py`.
pub open spec fn covered_by(top: DynamicImage, x: int, y: int, px: int, py: int) -> bool {
    x <= px < x + image_width(top) && y <= py < y + image_height(top)
}

/// Whether every pixel of a picture is fully opaque.
pub open spec fn is_opaque_image(img: DynamicImage) -> bool {
    forall|x: int, y: int| on_image(img, x, y) ==> #[trigger] image_pixel(img, x, y).is_opaque()
}

/// Whether `scaled` is no less than a 256th of `img` in width and in
/// height.
pub open spec fn shrunk_at_most_256_times(img: DynamicImage, scaled: DynamicImage) -> bool {
    &&& image_width(img) <= 256 * image_width(scaled)
    &&& image_height(img) <= 256 * image_height(scaled)
}

/// Whether every sample of a picture has eight bits.
pub open spec fn has_8_bit_samples(img: DynamicImage) -> bool {
    image_format(img) matches Some(format) && format.has_8_bit_samples()
}

/// Whether a pixel of a picture reads as opaque only if its alpha sample is
/// at its maximum: the alpha has eight bits, or the layout has none.
pub open spec fn alpha_reads_exactly(img: DynamicImage) -> bool {
    image_format(img) matches Some(format) && format.alpha_reads_exactly()
}

/// Whether every pixel of a picture is `pixel`.
pub open spec fn is_uniform_image(img: DynamicImage, pixel: Pixel) -> bool {
    forall|x: int, y: int| on_image(img, x, y) ==> #[trigger] image_pixel(img, x, y) == pixel
}

/// `scaled` is `img` scaled to the largest size that fits within `nwidth`
/// by `nheight` with its aspect ratio kept.
///
/// The layout is that of `img`, and a picture that keeps its size is handed
/// back as it is. Where no side shrinks more than 256 times, a picture of
/// one colour stays of that colour if its samples have eight bits, and an
/// opaque picture stays opaque if its alpha has eight bits or its layout
/// has none.
pub open spec fn scaled_from(
    img: DynamicImage,
    nwidth: u32,
    nheight: u32,
    scaled: DynamicImage,
) -> bool {
    &&& image_format(scaled) == image_format(img)
    &&& scaled_to_fit(
        image_width(img) as int,
        image_height(img) as int,
        nwidth as int,
        nheight as int,
        image_width(scaled) as int,
        image_height(scaled) as int,
    )
    &&& image_width(scaled) == image_width(img) && image_height(scaled) == image_height(img)
        ==> scaled == img
    &&& alpha_reads_exactly(img) && is_opaque_image(img) && shrunk_at_most_256_times(img, scaled)
        ==> is_opaque_image(scaled)
    &&& forall|pixel: Pixel|
        has_8_bit_samples(img) && is_uniform_image(img, pixel) && shrunk_at_most_256_times(
            img,
            scaled,
        ) ==> #[trigger] is_uniform_image(scaled, pixel)
}

/// Whether every pixel of a picture is a shade of gray.
pub open spec fn is_gray_image(img: DynamicImage) -> bool {
    forall|x: int, y: int| on_image(img, x, y) ==> #[trigger] image_pixel(img, x, y).is_gray()
}

/// `after` is a gray picture of the layout `format` and the size of
/// `before`.
pub open spec fn gray_in_layout(
    before: DynamicImage,
    format: ColorFormat,
    after: DynamicImage,
) -> bool {
    &&& image_format(after) == Some(format)
    &&& image_width(after) == image_width(before)
    &&& image_height(after) == image_height(before)
    &&& is_gray_image(after)
}

/// `DynamicImage::width`: the result is the picture's width.
pub assume_specification[ DynamicImage::width ](img: &DynamicImage) -> (w: u32)
    ensures
        w == image_width(*img),
;

/// `DynamicImage::height`: the result is the picture's height.
pub assume_specification[ DynamicImage::height ](img: &DynamicImage) -> (h: u32)
    ensures
        h == image_height(*img),
;

/// `DynamicImage::clone`: the copy is the same picture.
pub assume_specification[ <DynamicImage as Clone>::clone ](img: &DynamicImage) -> (r: DynamicImage)
    ensures
        r == *img,
;

/// `DynamicImage::color`, with each of the crate's ten colour types mapped
/// to the [`ColorFormat`] of the same name and any other to `None`.
#[verifier::external_body]
pub(crate) fn color_format(img: &DynamicImage) -> (format: Option<ColorFormat>)
    ensures
        format == image_format(*img),
{
    match img.color() {
        ColorType::L8 => Some(ColorFormat::L8),
        ColorType::La8 => Some(ColorFormat::La8),
        ColorType::Rgb8 => Some(ColorFormat::Rgb8),
        ColorType::Rgba8 => Some(ColorFormat::Rgba8),
        ColorType::L16 => Some(ColorFormat::L16),
        ColorType::La16 => Some(ColorFormat::La16),
        ColorType::Rgb16 => Some(ColorFormat::Rgb16),
        ColorType::Rgba16 => Some(ColorFormat::Rgba16),
        ColorType::Rgb32F => Some(ColorFormat::Rgb32F),
        ColorType::Rgba32F => Some(ColorFormat::Rgba32F),
        _ => None,
    }
}

/// `DynamicImage::resize` with the Lanczos3 filter. What comes back is not
/// named: the filter takes sines, whose last digits the standard library
/// leaves open, so only what holds of every result is stated.
///
/// Size: the crate documents that the aspect ratio is kept and that the
/// result is the largest that fits the bounds. It computes the scaled sides
/// in double precision and rounds them to whole pixels, at least one: with
/// sides of 32 bits the error of that computation stays far below half a
/// pixel, so the side that meets its bound meets it exactly, and the other
/// side is the rounded proportional length, which [`scaled_to_fit`] bounds.
/// The layout is that of the source, and where the scaled size is the
/// picture's own the crate copies the picture.
///
/// Samples: each sample of the result is a weighted mean of samples of the
/// source, taken in single precision on the samples as they are stored,
/// with weights that are scaled to add up to one; it is cut to the sample
/// range and rounded to the nearest value. Where no side shrinks more than
/// 256 times, a mean has at most some 1,500 weights in each of the two
/// passes, and its rounding error stays below a thousandth of the range,
/// which is a quarter of one step of an 8-bit sample. So 8-bit samples that
/// are equal everywhere come back as they were, and an 8-bit alpha that is
/// 255 everywhere comes back as 255. An alpha of 16 bits or a float alpha
/// may read as opaque without being at its maximum, and a mean of such
/// samples may read otherwise: of those nothing is stated.
///
/// Left out are empty pictures and empty bounds, for which the crate yields
/// a picture of at least one pixel, and sizes beyond the pixel budget, for
/// which it may panic: it allocates one buffer as wide as the source and
/// one of the new size, each with the rows of the new size.
#[verifier::external_body]
pub(crate) fn resize_lanczos3(
    img: &DynamicImage,
    nwidth: u32,
    nheight: u32,
) -> (scaled: DynamicImage)
    requires
        0 < image_width(*img),
        0 < image_height(*img),
        0 < nwidth,
        0 < nheight,
        scaling_within_budget(
            image_width(*img) as int,
            image_height(*img) as int,
            nwidth as int,
            nheight as int,
        ),
    ensures
        scaled_from(*img, nwidth, nheight, scaled),
{
    img.resize(nwidth, nheight, FilterType::Lanczos3)
}

/// `DynamicImage::grayscale`: a gray version of the picture. The size stays;
/// colour channels collapse into one luminance channel, except in the float
/// layouts, which stay and hold the luminance in each colour channel.
#[verifier::external_body]
pub(crate) fn grayscale(img: &DynamicImage) -> (gray: DynamicImage)
    ensures
        gray == grayscale_of(*img),
        image_width(gray) == image_width(*img),
        image_height(gray) == image_height(*img),
        image_format(*img) matches Some(f) ==> image_format(gray) == Some(f.luminance_layout()),
        is_gray_image(gray),
{
    img.grayscale()
}

/// `DynamicImage::into_luma8` on a picture that has that layout: the crate
/// hands it back as it is.
#[verifier::external_body]
pub(crate) fn into_l8(img: DynamicImage) -> (r: DynamicImage)
    requires
        image_format(img) == Some(ColorFormat::L8),
    ensures
        r == img,
{
    img.into_luma8().into()
}

/// `DynamicImage::into_luma_alpha8` on a picture that has that layout: the
/// crate hands it back as it is.
#[verifier::external_body]
pub(crate) fn into_la8(img: DynamicImage) -> (r: DynamicImage)
    requires
        image_format(img) == Some(ColorFormat::La8),
    ensures
        r == img,
{
    img.into_luma_alpha8().into()
}

/// `DynamicImage::into_luma16` on a picture that has that layout: the crate
/// hands it back as it is.
#[verifier::external_body]
pub(crate) fn into_l16(img: DynamicImage) -> (r: DynamicImage)
    requires
        image_format(img) == Some(ColorFormat::L16),
    ensures
        r == img,
{
    img.into_luma16().into()
}

/// `DynamicImage::into_luma_alpha16` on a picture that has that layout: the
/// crate hands it back as it is.
#[verifier::external_body]
pub(crate) fn into_la16(img: DynamicImage) -> (r: DynamicImage)
    requires
        image_format(img) == Some(ColorFormat::La16),
    ensures
        r == img,
{
    img.into_luma_alpha16().into()
}

/// `DynamicImage::into_rgb32f` on a picture that has that layout: the crate
/// hands it back as it is.
#[verifier::external_body]
pub(crate) fn into_rgb32f(img: DynamicImage) -> (r: DynamicImage)
    requires
        image_format(img) == Some(ColorFormat::Rgb32F),
    ensures
        r == img,
{
    img.into_rgb32f().into()
}

/// `DynamicImage::into_rgba32f` on a picture that has that layout: the crate
/// hands it back as it is.
#[verifier::external_body]
pub(crate) fn into_rgba32f(img: DynamicImage) -> (r: DynamicImage)
    requires
        image_format(img) == Some(ColorFormat::Rgba32F),
    ensures
        r == img,
{
    img.into_rgba32f().into()
}

/// `DynamicImage::into_rgb8` on a picture of 8-bit luminance: a picture of
/// the same size in which red, green and blue each hold the luminance.
/// Beyond the pixel budget the crate may fail to allocate the new buffer,
/// and panics.
#[verifier::external_body]
pub(crate) fn into_rgb8(img: DynamicImage) -> (r: DynamicImage)
    requires
        image_format(img) == Some(ColorFormat::L8),
        within_pixel_budget(image_width(img) as int, image_height(img) as int),
    ensures
        r == rgb8_of(img),
        gray_in_layout(img, ColorFormat::Rgb8, r),
{
    img.into_rgb8().into()
}

/// `DynamicImage::into_rgba8` on a picture of 8-bit luminance and alpha: a
/// picture of the same size in which red, green and blue each hold the
/// luminance. Beyond the pixel budget the crate may fail to allocate the
/// new buffer, and panics.
#[verifier::external_body]
pub(crate) fn into_rgba8(img: DynamicImage) -> (r: DynamicImage)
    requires
        image_format(img) == Some(ColorFormat::La8),
        within_pixel_budget(image_width(img) as int, image_height(img) as int),
    ensures
        r == rgba8_of(img),
        gray_in_layout(img, ColorFormat::Rgba8, r),
{
    img.into_rgba8().into()
}

/// `DynamicImage::into_rgb16` on a picture of 16-bit luminance: a picture
/// of the same size in which red, green and blue each hold the luminance.
/// Beyond the pixel budget the crate may fail to allocate the new buffer,
/// and panics.
#[verifier::external_body]
pub(crate) fn into_rgb16(img: DynamicImage) -> (r: DynamicImage)
    requires
        image_format(img) == Some(ColorFormat::L16),
        within_pixel_budget(image_width(img) as int, image_height(img) as int),
    ensures
        r == rgb16_of(img),
        gray_in_layout(img, ColorFormat::Rgb16, r),
{
    img.into_rgb16().into()
}

/// `DynamicImage::into_rgba16` on a picture of 16-bit luminance and alpha:
/// a picture of the same size in which red, green and blue each hold the
/// luminance. Beyond the pixel budget the crate may fail to allocate the
/// new buffer, and panics.
#[verifier::external_body]
pub(crate) fn into_rgba16(img: DynamicImage) -> (r: DynamicImage)
    requires
        image_format(img) == Some(ColorFormat::La16),
        within_pixel_budget(image_width(img) as int, image_height(img) as int),
    ensures
        r == rgba16_of(img),
        gray_in_layout(img, ColorFormat::Rgba16, r),
{
    img.into_rgba16().into()
}

/// `imageops::overlay` at a position that is not negative. Size and layout
/// of `bottom` stay. The crate visits each pixel of `bottom` that `top`
/// covers: it reads both pixels as 8-bit red, green, blue and alpha, blends
/// the pixel of `top` onto the other by its alpha, and writes the result
/// back in the layout of `bottom`. Every other pixel stays as it was.
///
/// An opaque pixel of `top` takes the place of what is under it, and reads
/// back as [`ColorFormat::stored`] says: samples of 16 bits and float
/// samples hold every 8-bit value exactly, and a luminance layout keeps the
/// luminance, which the crate computes in whole numbers. A transparent
/// pixel of `top` leaves what is under it as it reads.
#[verifier::external_body]
pub(crate) fn overlay_at(bottom: &mut DynamicImage, top: &DynamicImage, x: u32, y: u32)
    ensures
        *final(bottom) == overlaid(*old(bottom), *top, x, y),
        image_width(*final(bottom)) == image_width(*old(bottom)),
        image_height(*final(bottom)) == image_height(*old(bottom)),
        image_format(*final(bottom)) == image_format(*old(bottom)),
        forall|px: int, py: int|
            on_image(*old(bottom), px, py) && !covered_by(*top, x as int, y as int, px, py)
                ==> #[trigger] image_pixel(*final(bottom), px, py)
                == image_pixel(*old(bottom), px, py),
        forall|px: int, py: int|
            on_image(*old(bottom), px, py) && covered_by(*top, x as int, y as int, px, py)
                && image_format(*old(bottom)) is Some
                && image_pixel(*top, px - x, py - y).is_opaque()
                ==> #[trigger] image_pixel(*final(bottom), px, py)
                == image_format(*old(bottom))->Some_0.stored(image_pixel(*top, px - x, py - y)),
        forall|px: int, py: int|
            on_image(*old(bottom), px, py) && covered_by(*top, x as int, y as int, px, py)
                && image_format(*old(bottom)) is Some
                && image_pixel(*top, px - x, py - y).is_transparent()
                ==> #[trigger] image_pixel(*final(bottom), px, py)
                == image_pixel(*old(bottom), px, py),
{
    image::imageops::overlay(bottom, top, x.into(), y.into());
}

} // verus!
