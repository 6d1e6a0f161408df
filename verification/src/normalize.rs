//! Preparing the profile picture: capping its size and rendering it in
//! shades of gray without changing its pixel layout.

use crate::error::CompositorError;
use crate::format::ColorFormat;
use crate::geometry::{
    fits_pixel_budget, fits_scaling_budget, lemma_modest_sizes_are_within_budget,
    lemma_same_aspect_fills_bounds, scaled_to_fit, scaling_within_budget, within_one_pixel,
    within_pixel_budget, MAX_PIXELS,
};
use crate::raster::{
    color_format, grayscale, grayscale_of, image_format, image_height, image_width, into_l16,
    into_l8, into_la16, into_la8, into_rgb16, into_rgb32f, into_rgb8, into_rgba16, into_rgba32f,
    into_rgba8, is_gray_image, resize_lanczos3, rgb16_of, rgb8_of, rgba16_of, rgba8_of, scaled_from,
};
use image::DynamicImage;
use vstd::prelude::*;

verus! {

/// The longest side, in pixels, that a normalized profile picture may have.
pub const MAX_SIDE: u32 = 500;

/// Whether a picture has no pixels at all.
pub open spec fn is_empty_image(img: DynamicImage) -> bool {
    image_width(img) == 0 || image_height(img) == 0
}

/// Whether a picture is scaled down: one of its sides is longer than
/// [`MAX_SIDE`], and it has pixels to scale.
pub open spec fn needs_downscale(img: DynamicImage) -> bool {
    (image_width(img) > MAX_SIDE || image_height(img) > MAX_SIDE) && !is_empty_image(img)
}

/// Whether scaling a picture down would take a buffer beyond the pixel
/// budget.
pub open spec fn too_large_to_downscale(img: DynamicImage) -> bool {
    needs_downscale(img) && !scaling_within_budget(
        image_width(img) as int,
        image_height(img) as int,
        MAX_SIDE as int,
        MAX_SIDE as int,
    )
}

/// `scaled` is what [`downscale`] makes of `img` where it does not fail:
/// `img` scaled to fit [`MAX_SIDE`] by [`MAX_SIDE`] if it needs to be, and
/// else `img` itself.
pub open spec fn downscaled_from(img: DynamicImage, scaled: DynamicImage) -> bool {
    if needs_downscale(img) {
        scaled_from(img, MAX_SIDE, MAX_SIDE, scaled)
    } else {
        scaled == img
    }
}

/// The gray rendering `gray` of a picture, brought back to the layout
/// `format` that the picture had. Only where colour channels collapsed into
/// one is there anything to bring back.
pub open spec fn restored(gray: DynamicImage, format: ColorFormat) -> DynamicImage {
    match format {
        ColorFormat::Rgb8 => rgb8_of(gray),
        ColorFormat::Rgba8 => rgba8_of(gray),
        ColorFormat::Rgb16 => rgb16_of(gray),
        ColorFormat::Rgba16 => rgba16_of(gray),
        _ => gray,
    }
}

/// Whether bringing the gray rendering of a picture back to the layout
/// `format` would take a buffer beyond the pixel budget. It takes none
/// where the rendering already has the layout.
pub open spec fn too_large_to_restore(img: DynamicImage, format: ColorFormat) -> bool {
    format.collapses_in_gray() && !within_pixel_budget(
        image_width(img) as int,
        image_height(img) as int,
    )
}

/// What [`to_grayscale`] returns.
pub open spec fn grayscale_result(img: DynamicImage) -> Result<DynamicImage, CompositorError> {
    match image_format(img) {
        None => Err(CompositorError::UnsupportedFormat),
        Some(format) => if too_large_to_restore(img, format) {
            Err(CompositorError::ImageTooLarge)
        } else {
            Ok(restored(grayscale_of(img), format))
        },
    }
}

/// The error with which [`normalize_profile_picture`] fails, if it does:
/// the picture is too large to be scaled down, or it is to be rendered in
/// shades of gray and its layout is not known.
pub open spec fn normalize_failure(img: DynamicImage, gray: bool) -> Option<CompositorError> {
    if too_large_to_downscale(img) {
        Some(CompositorError::ImageTooLarge)
    } else if gray && image_format(img) is None {
        Some(CompositorError::UnsupportedFormat)
    } else {
        None
    }
}

/// `normalized` is what is made of the downscaled picture `scaled`: its
/// rendering in shades of gray in the layout it has, if `gray` is set, and
/// else `scaled` itself.
pub open spec fn finished_from(scaled: DynamicImage, gray: bool, normalized: DynamicImage) -> bool {
    if gray {
        image_format(scaled) matches Some(format) && normalized == restored(
            grayscale_of(scaled),
            format,
        )
    } else {
        normalized == scaled
    }
}

/// `normalized` is `img` normalized: scaled down as [`downscale`] does and
/// then, if `gray` is set, rendered in shades of gray as [`to_grayscale`]
/// does.
pub open spec fn normalized_from(img: DynamicImage, gray: bool, normalized: DynamicImage) -> bool {
    exists|scaled: DynamicImage| #[trigger]
        downscaled_from(img, scaled) && finished_from(scaled, gray, normalized)
}

/// The longer side of `scaled` is exactly [`MAX_SIDE`], and the other side
/// is within one pixel of its proportional length.
pub open spec fn capped_from(picture: DynamicImage, scaled: DynamicImage) -> bool {
    &&& image_width(scaled) <= MAX_SIDE
    &&& image_height(scaled) <= MAX_SIDE
    &&& image_width(scaled) == MAX_SIDE || image_height(scaled) == MAX_SIDE
    &&& scaled_to_fit(
        image_width(picture) as int,
        image_height(picture) as int,
        MAX_SIDE as int,
        MAX_SIDE as int,
        image_width(scaled) as int,
        image_height(scaled) as int,
    )
}

/// `after` has the size that a picture of the size of `before` has once it
/// is normalized: capped where a side was too long, unchanged otherwise.
pub open spec fn size_normalized(before: DynamicImage, after: DynamicImage) -> bool {
    if needs_downscale(before) {
        capped_from(before, after)
    } else {
        image_width(after) == image_width(before) && image_height(after) == image_height(before)
    }
}

/// Scales a picture down so that its longer side is [`MAX_SIDE`] pixels,
/// keeping its aspect ratio, if one of its sides is longer than that. A
/// picture that is small enough, or has no pixels, is handed back as it is.
pub fn downscale(picture: DynamicImage) -> (r: Result<DynamicImage, CompositorError>)
    ensures
        match r {
            Ok(scaled) => {
                &&& !too_large_to_downscale(picture)
                &&& downscaled_from(picture, scaled)
                &&& image_format(scaled) == image_format(picture)
                &&& size_normalized(picture, scaled)
            },
            Err(e) => e == CompositorError::ImageTooLarge && too_large_to_downscale(picture),
        },
{
    let width: u32 = picture.width();
    let height: u32 = picture.height();
    if (width <= MAX_SIDE && height <= MAX_SIDE) || width == 0 || height == 0 {
        return Ok(picture);
    }
    if !fits_scaling_budget(width, height, MAX_SIDE, MAX_SIDE) {
        return Err(CompositorError::ImageTooLarge);
    }
    Ok(resize_lanczos3(&picture, MAX_SIDE, MAX_SIDE))
}

/// Renders a picture in shades of gray and brings the result back to the
/// pixel layout that the picture had.
pub fn to_grayscale(picture: &DynamicImage) -> (r: Result<DynamicImage, CompositorError>)
    ensures
        r == grayscale_result(*picture),
        r matches Ok(gray) ==> {
            &&& image_format(gray) == image_format(*picture)
            &&& image_width(gray) == image_width(*picture)
            &&& image_height(gray) == image_height(*picture)
            &&& is_gray_image(gray)
        },
{
    let format = match color_format(picture) {
        Some(format) => format,
        None => {
            return Err(CompositorError::UnsupportedFormat);
        },
    };
    if format.collapses_in_gray() && !fits_pixel_budget(picture.width(), picture.height()) {
        return Err(CompositorError::ImageTooLarge);
    }
    let gray = grayscale(picture);
    let restored = match format {
        ColorFormat::L8 => into_l8(gray),
        ColorFormat::La8 => into_la8(gray),
        ColorFormat::Rgb8 => into_rgb8(gray),
        ColorFormat::Rgba8 => into_rgba8(gray),
        ColorFormat::L16 => into_l16(gray),
        ColorFormat::La16 => into_la16(gray),
        ColorFormat::Rgb16 => into_rgb16(gray),
        ColorFormat::Rgba16 => into_rgba16(gray),
        ColorFormat::Rgb32F => into_rgb32f(gray),
        ColorFormat::Rgba32F => into_rgba32f(gray),
    };
    Ok(restored)
}

/// Normalizes a profile picture: scales it down as [`downscale`] does and
/// then, if `gray` is set, renders it in shades of gray as [`to_grayscale`]
/// does. The pixel layout of the picture is kept either way.
pub fn normalize_profile_picture(picture: DynamicImage, gray: bool) -> (r: Result<
    DynamicImage,
    CompositorError,
>)
    ensures
        match r {
            Ok(normalized) => {
                &&& normalize_failure(picture, gray) is None
                &&& normalized_from(picture, gray, normalized)
                &&& image_format(normalized) == image_format(picture)
                &&& size_normalized(picture, normalized)
                &&& gray ==> is_gray_image(normalized)
            },
            Err(e) => normalize_failure(picture, gray) == Some(e),
        },
{
    let ghost given = picture;
    let scaled = match downscale(picture) {
        Ok(scaled) => scaled,
        Err(e) => {
            return Err(e);
        },
    };
    if !gray {
        assert(downscaled_from(given, scaled) && finished_from(scaled, gray, scaled));
        return Ok(scaled);
    }
    proof {
        lemma_normalized_size_fits_budget(given, scaled);
    }
    let r = to_grayscale(&scaled);
    assert(r matches Ok(normalized) ==> downscaled_from(given, scaled) && finished_from(
        scaled,
        gray,
        normalized,
    ));
    r
}

/// Of a picture that was capped, the side that was the longer one is
/// [`MAX_SIDE`] pixels long, and the other side is within one pixel of its
/// proportional length.
pub proof fn lemma_capped_is_proportional(picture: DynamicImage, scaled: DynamicImage)
    requires
        needs_downscale(picture),
        capped_from(picture, scaled),
    ensures
        image_width(picture) >= image_height(picture) ==> {
            &&& image_width(scaled) == MAX_SIDE
            &&& within_one_pixel(
                image_height(scaled) as int,
                image_height(picture) as int,
                MAX_SIDE as int,
                image_width(picture) as int,
            )
        },
        image_width(picture) <= image_height(picture) ==> {
            &&& image_height(scaled) == MAX_SIDE
            &&& within_one_pixel(
                image_width(scaled) as int,
                image_width(picture) as int,
                MAX_SIDE as int,
                image_height(picture) as int,
            )
        },
{
    if image_width(picture) == image_height(picture) {
        lemma_same_aspect_fills_bounds(
            image_width(picture) as int,
            image_height(picture) as int,
            MAX_SIDE as int,
            MAX_SIDE as int,
            image_width(scaled) as int,
            image_height(scaled) as int,
        );
    }
}

/// A picture that holds no more than half the pixel budget is never too
/// large to be scaled down.
pub proof fn lemma_modest_picture_is_downscaled(picture: DynamicImage)
    requires
        2 * (image_width(picture) * image_height(picture)) <= MAX_PIXELS,
    ensures
        !too_large_to_downscale(picture),
{
    if needs_downscale(picture) {
        lemma_modest_sizes_are_within_budget(
            image_width(picture) as int,
            image_height(picture) as int,
            MAX_SIDE as int,
            MAX_SIDE as int,
        );
    }
}

/// A picture of normalized size is within the pixel budget, so rendering it
/// in shades of gray cannot fail for its size.
pub proof fn lemma_normalized_size_fits_budget(before: DynamicImage, after: DynamicImage)
    requires
        size_normalized(before, after),
    ensures
        within_pixel_budget(image_width(after) as int, image_height(after) as int),
{
    let w = image_width(after) as int;
    let h = image_height(after) as int;
    if w == 0 || h == 0 {
        assert(w * h == 0) by (nonlinear_arith)
            requires
                w == 0 || h == 0,
        ;
    } else {
        assert(w * h <= 500 * 500) by (nonlinear_arith)
            requires
                0 <= w <= 500,
                0 <= h <= 500,
        ;
    }
}

} // verus!
