//! Drawing an icon onto the profile picture.

use crate::error::CompositorError;
use crate::format::{ColorFormat, Pixel};
use crate::geometry::{
    fits_scaling_budget, lemma_modest_sizes_are_within_budget, scaling_within_budget,
    target_rectangle, target_region, PlacementPolicy, Region, MAX_PIXELS,
};
use crate::normalize::is_empty_image;
use crate::raster::{
    alpha_reads_exactly, covered_by, has_8_bit_samples, image_format, image_height, image_pixel,
    image_width, is_opaque_image, is_uniform_image, on_image, overlaid, overlay_at,
    resize_lanczos3, scaled_from, shrunk_at_most_256_times,
};
use image::DynamicImage;
use vstd::prelude::*;

verus! {

/// Whether there is nothing to scale: the icon has no pixels, or the bounds
/// leave room for none.
pub open spec fn nothing_to_scale(icon: DynamicImage, bound_width: u32, bound_height: u32) -> bool {
    is_empty_image(icon) || bound_width == 0 || bound_height == 0
}

/// Whether scaling the icon would take a buffer beyond the pixel budget.
pub open spec fn too_large_to_scale(
    icon: DynamicImage,
    bound_width: u32,
    bound_height: u32,
) -> bool {
    !nothing_to_scale(icon, bound_width, bound_height) && !scaling_within_budget(
        image_width(icon) as int,
        image_height(icon) as int,
        bound_width as int,
        bound_height as int,
    )
}

/// Scales an icon, up or down, to the largest size that fits the bounds
/// with its aspect ratio kept. There is nothing to scale, and the result is
/// `None`, if the icon has no pixels or the bounds leave room for none.
pub fn scale_icon(
    icon: &DynamicImage,
    bound_width: u32,
    bound_height: u32,
) -> (r: Result<Option<DynamicImage>, CompositorError>)
    ensures
        match r {
            Ok(None) => nothing_to_scale(*icon, bound_width, bound_height),
            Ok(Some(scaled)) => {
                &&& !nothing_to_scale(*icon, bound_width, bound_height)
                &&& !too_large_to_scale(*icon, bound_width, bound_height)
                &&& scaled_from(*icon, bound_width, bound_height, scaled)
                &&& 1 <= image_width(scaled) <= bound_width
                &&& 1 <= image_height(scaled) <= bound_height
                &&& image_width(scaled) == bound_width || image_height(scaled) == bound_height
            },
            Err(e) => {
                &&& e == CompositorError::ImageTooLarge
                &&& too_large_to_scale(*icon, bound_width, bound_height)
            },
        },
{
    let width: u32 = icon.width();
    let height: u32 = icon.height();
    if width == 0 || height == 0 || bound_width == 0 || bound_height == 0 {
        return Ok(None);
    }
    if !fits_scaling_budget(width, height, bound_width, bound_height) {
        return Err(CompositorError::ImageTooLarge);
    }
    Ok(Some(resize_lanczos3(icon, bound_width, bound_height)))
}

/// `after` is `before` with `top` drawn onto it, the top-left corner of
/// `top` in column `x` and row `y`. Size and pixel layout are those of
/// `before`, and so is every pixel that `top` does not cover. An opaque
/// pixel of `top` has taken the place of the pixel under it, as the layout
/// of `before` stores it, and a transparent one has left it as it was.
pub open spec fn drawn_onto(
    before: DynamicImage,
    top: DynamicImage,
    x: int,
    y: int,
    after: DynamicImage,
) -> bool {
    &&& 0 <= x <= u32::MAX
    &&& 0 <= y <= u32::MAX
    &&& after == overlaid(before, top, x as u32, y as u32)
    &&& image_width(after) == image_width(before)
    &&& image_height(after) == image_height(before)
    &&& image_format(after) == image_format(before)
    &&& forall|px: int, py: int|
        on_image(before, px, py) && !covered_by(top, x, y, px, py)
            ==> #[trigger] image_pixel(after, px, py) == image_pixel(before, px, py)
    &&& forall|px: int, py: int|
        on_image(before, px, py) && covered_by(top, x, y, px, py) && image_format(before) is Some
            && image_pixel(top, px - x, py - y).is_opaque()
            ==> #[trigger] image_pixel(after, px, py)
            == image_format(before)->Some_0.stored(image_pixel(top, px - x, py - y))
    &&& forall|px: int, py: int|
        on_image(before, px, py) && covered_by(top, x, y, px, py) && image_format(before) is Some
            && image_pixel(top, px - x, py - y).is_transparent()
            ==> #[trigger] image_pixel(after, px, py) == image_pixel(before, px, py)
}

/// The region of `picture` that the policy assigns to the icon.
pub open spec fn icon_region(picture: DynamicImage, policy: PlacementPolicy) -> Region {
    target_region(policy, image_width(picture) as int, image_height(picture) as int)
}

/// Whether there is nothing to draw: the icon has no pixels, or its region
/// on `picture` has none.
pub open spec fn nothing_to_draw(
    picture: DynamicImage,
    icon: DynamicImage,
    policy: PlacementPolicy,
) -> bool {
    let region = icon_region(picture, policy);
    nothing_to_scale(icon, region.width() as u32, region.height() as u32)
}

/// Whether scaling the icon to its region on `picture` would take a buffer
/// beyond the pixel budget.
pub open spec fn icon_too_large(
    picture: DynamicImage,
    icon: DynamicImage,
    policy: PlacementPolicy,
) -> bool {
    let region = icon_region(picture, policy);
    too_large_to_scale(icon, region.width() as u32, region.height() as u32)
}

/// `after` is `before` with `scaled` drawn onto it, where `scaled` is
/// `icon` scaled to fit its region and lies with its top-left corner on
/// that of the region.
pub open spec fn iconified_with(
    before: DynamicImage,
    icon: DynamicImage,
    policy: PlacementPolicy,
    scaled: DynamicImage,
    after: DynamicImage,
) -> bool {
    let region = icon_region(before, policy);
    &&& scaled_from(icon, region.width() as u32, region.height() as u32, scaled)
    &&& drawn_onto(before, scaled, region.left, region.top, after)
}

/// `after` is `before` with `icon` placed by `policy`: the icon, scaled to
/// fit its region, is drawn with its top-left corner on that of the region;
/// if there is nothing to draw, `after` is `before`.
pub open spec fn iconified(
    before: DynamicImage,
    icon: DynamicImage,
    policy: PlacementPolicy,
    after: DynamicImage,
) -> bool {
    if nothing_to_draw(before, icon, policy) {
        after == before
    } else {
        &&& !icon_too_large(before, icon, policy)
        &&& exists|scaled: DynamicImage| #[trigger]
            iconified_with(before, icon, policy, scaled, after)
    }
}

/// Draws `icon` onto `profile_picture`: scales the icon to fit the region
/// that `policy` assigns to it, keeping its aspect ratio, and blends it onto
/// the picture by its own alpha, top-left corner on top-left corner. Fails,
/// and leaves the picture as it is, if scaling the icon would exceed the
/// pixel budget.
pub fn overlay_icon_over_pfp(
    profile_picture: &mut DynamicImage,
    icon: &DynamicImage,
    policy: PlacementPolicy,
) -> (r: Result<(), CompositorError>)
    ensures
        match r {
            Ok(()) => iconified(*old(profile_picture), *icon, policy, *final(profile_picture)),
            Err(e) => {
                &&& e == CompositorError::ImageTooLarge
                &&& icon_too_large(*old(profile_picture), *icon, policy)
                &&& *final(profile_picture) == *old(profile_picture)
            },
        },
{
    let rect = target_rectangle(policy, profile_picture.width(), profile_picture.height());
    let scaled = match scale_icon(icon, rect.width(), rect.height()) {
        Ok(Some(scaled)) => scaled,
        Ok(None) => {
            return Ok(());
        },
        Err(e) => {
            return Err(e);
        },
    };
    overlay_at(profile_picture, &scaled, rect.left(), rect.top());
    assert(iconified_with(*old(profile_picture), *icon, policy, scaled, *profile_picture));
    Ok(())
}

/// A copy of `template` with `icon` drawn onto it as
/// [`overlay_icon_over_pfp`] does. The template itself is not touched, so
/// that every icon starts from the same picture.
pub fn with_icon(
    template: &DynamicImage,
    icon: &DynamicImage,
    policy: PlacementPolicy,
) -> (r: Result<DynamicImage, CompositorError>)
    ensures
        match r {
            Ok(picture) => iconified(*template, *icon, policy, picture),
            Err(e) => {
                &&& e == CompositorError::ImageTooLarge
                &&& icon_too_large(*template, *icon, policy)
            },
        },
{
    let mut picture = template.clone();
    match overlay_icon_over_pfp(&mut picture, icon, policy) {
        Ok(()) => Ok(picture),
        Err(e) => Err(e),
    }
}

/// Whether `scaled`, drawn with its top-left corner on that of `region`,
/// covers the pixel in column `px` and row `py`.
pub open spec fn icon_covers(scaled: DynamicImage, region: Region, px: int, py: int) -> bool {
    covered_by(scaled, region.left, region.top, px, py)
}

/// The pixel of `scaled` that comes to lie in column `px` and row `py` when
/// `scaled` is drawn with its top-left corner on that of `region`.
pub open spec fn icon_pixel(scaled: DynamicImage, region: Region, px: int, py: int) -> Pixel {
    image_pixel(scaled, px - region.left, py - region.top)
}

/// Whether every pixel of a picture is fully transparent.
pub open spec fn is_transparent_image(img: DynamicImage) -> bool {
    forall|x: int, y: int|
        on_image(img, x, y) ==> #[trigger] image_pixel(img, x, y).is_transparent()
}

/// An icon is never too large to be drawn if it holds no more than half the
/// pixel budget and so does the region that the policy assigns to it; a
/// picture with no side over 500 pixels has such a region.
pub proof fn lemma_modest_icon_is_scaled(
    picture: DynamicImage,
    icon: DynamicImage,
    policy: PlacementPolicy,
)
    requires
        2 * (image_width(icon) * image_height(icon)) <= MAX_PIXELS,
        image_width(picture) <= 500 && image_height(picture) <= 500 || 2 * (icon_region(
            picture,
            policy,
        ).width() * icon_region(picture, policy).height()) <= MAX_PIXELS,
    ensures
        !icon_too_large(picture, icon, policy),
{
    let region = icon_region(picture, policy);
    if !nothing_to_draw(picture, icon, policy) {
        assert(region.width() * region.height() <= 500 * 500 || 2 * (region.width()
            * region.height()) <= MAX_PIXELS) by (nonlinear_arith)
            requires
                0 <= region.width(),
                0 <= region.height(),
                region.width() <= 500 && region.height() <= 500 || 2 * (region.width()
                    * region.height()) <= MAX_PIXELS,
        ;
        lemma_modest_sizes_are_within_budget(
            image_width(icon) as int,
            image_height(icon) as int,
            region.width(),
            region.height(),
        );
    }
}

/// The same picture with the same scaled icon drawn at the same place is
/// the same picture, however often it is drawn.
pub proof fn lemma_drawing_is_determined(
    before: DynamicImage,
    top: DynamicImage,
    x: int,
    y: int,
    first: DynamicImage,
    second: DynamicImage,
)
    requires
        drawn_onto(before, top, x, y, first),
        drawn_onto(before, top, x, y, second),
    ensures
        first == second,
{
}

/// The scaled icon exceeds neither side of its region and meets at least
/// one of them, and it lies wholly inside the region, which lies wholly on
/// the picture.
pub proof fn lemma_icon_fits_region(
    before: DynamicImage,
    icon: DynamicImage,
    policy: PlacementPolicy,
    scaled: DynamicImage,
    after: DynamicImage,
)
    requires
        iconified_with(before, icon, policy, scaled, after),
    ensures
        image_width(scaled) <= icon_region(before, policy).width(),
        image_height(scaled) <= icon_region(before, policy).height(),
        image_width(scaled) == icon_region(before, policy).width() || image_height(scaled)
            == icon_region(before, policy).height(),
        icon_region(before, policy).well_formed(),
        icon_region(before, policy).within(image_width(before) as int, image_height(before) as int),
        forall|px: int, py: int| #[trigger]
            icon_covers(scaled, icon_region(before, policy), px, py) ==> {
                &&& icon_region(before, policy).contains(px, py)
                &&& on_image(before, px, py)
                &&& on_image(scaled, px - icon_region(before, policy).left, py - icon_region(
                    before,
                    policy,
                ).top)
            },
{
}

/// Outside the region that the policy assigns to the icon, the picture with
/// the icon is the picture without it, whatever the icon holds. Size and
/// pixel layout are those of the picture without the icon.
pub proof fn lemma_outside_region_unchanged(
    before: DynamicImage,
    icon: DynamicImage,
    policy: PlacementPolicy,
    after: DynamicImage,
)
    requires
        iconified(before, icon, policy, after),
    ensures
        image_width(after) == image_width(before),
        image_height(after) == image_height(before),
        image_format(after) == image_format(before),
        forall|px: int, py: int|
            on_image(before, px, py) && !icon_region(before, policy).contains(px, py)
                ==> #[trigger] image_pixel(after, px, py) == image_pixel(before, px, py),
{
    let region = icon_region(before, policy);
    if !nothing_to_draw(before, icon, policy) {
        let scaled = choose|scaled: DynamicImage| #[trigger]
            iconified_with(before, icon, policy, scaled, after);
        lemma_icon_fits_region(before, icon, policy, scaled, after);
        assert forall|px: int, py: int|
            on_image(before, px, py) && !region.contains(px, py) implies #[trigger] image_pixel(
            after,
            px,
            py,
        ) == image_pixel(before, px, py) by {
            assert(!icon_covers(scaled, region, px, py));
        }
    }
}

/// With an opaque scaled icon, every pixel that the icon covers is the
/// icon's own pixel as the layout of the picture stores it, with nothing of
/// the old pixel blended in, and every other pixel is that of the picture
/// without the icon.
pub proof fn lemma_opaque_icon_replaces_region(
    before: DynamicImage,
    icon: DynamicImage,
    policy: PlacementPolicy,
    scaled: DynamicImage,
    after: DynamicImage,
    format: ColorFormat,
)
    requires
        iconified_with(before, icon, policy, scaled, after),
        is_opaque_image(scaled),
        image_format(before) == Some(format),
    ensures
        forall|px: int, py: int|
            icon_covers(scaled, icon_region(before, policy), px, py) ==> #[trigger] image_pixel(
                after,
                px,
                py,
            ) == format.stored(icon_pixel(scaled, icon_region(before, policy), px, py)),
        forall|px: int, py: int|
            on_image(before, px, py) && !icon_covers(scaled, icon_region(before, policy), px, py)
                ==> #[trigger] image_pixel(after, px, py) == image_pixel(before, px, py),
{
    let region = icon_region(before, policy);
    lemma_icon_fits_region(before, icon, policy, scaled, after);
    assert forall|px: int, py: int|
        icon_covers(scaled, region, px, py) implies #[trigger] image_pixel(after, px, py)
        == format.stored(icon_pixel(scaled, region, px, py)) by {
        assert(on_image(scaled, px - region.left, py - region.top));
        assert(image_pixel(scaled, px - region.left, py - region.top).is_opaque());
    }
}

/// An opaque icon whose alpha has eight bits, or whose layout has none, and
/// that shrinks no more than 256 times on either side, replaces every pixel
/// that it covers, once scaled, with its own pixel as the layout of the
/// picture stores it.
pub proof fn lemma_opaque_icon_replaces_what_it_covers(
    before: DynamicImage,
    icon: DynamicImage,
    policy: PlacementPolicy,
    scaled: DynamicImage,
    after: DynamicImage,
    format: ColorFormat,
)
    requires
        iconified_with(before, icon, policy, scaled, after),
        is_opaque_image(icon),
        alpha_reads_exactly(icon),
        shrunk_at_most_256_times(icon, scaled),
        image_format(before) == Some(format),
    ensures
        is_opaque_image(scaled),
        forall|px: int, py: int|
            icon_covers(scaled, icon_region(before, policy), px, py) ==> #[trigger] image_pixel(
                after,
                px,
                py,
            ) == format.stored(icon_pixel(scaled, icon_region(before, policy), px, py)),
        forall|px: int, py: int|
            on_image(before, px, py) && !icon_covers(scaled, icon_region(before, policy), px, py)
                ==> #[trigger] image_pixel(after, px, py) == image_pixel(before, px, py),
{
    lemma_opaque_icon_replaces_region(before, icon, policy, scaled, after, format);
}

/// An icon of one opaque colour with samples of eight bits, that shrinks no
/// more than 256 times on either side, shows in that colour, as the layout
/// of the picture stores it, on every pixel that it covers once scaled.
pub proof fn lemma_plain_icon_shows_its_color(
    before: DynamicImage,
    icon: DynamicImage,
    policy: PlacementPolicy,
    scaled: DynamicImage,
    after: DynamicImage,
    format: ColorFormat,
    color: Pixel,
)
    requires
        iconified_with(before, icon, policy, scaled, after),
        is_uniform_image(icon, color),
        color.is_opaque(),
        has_8_bit_samples(icon),
        shrunk_at_most_256_times(icon, scaled),
        image_format(before) == Some(format),
    ensures
        forall|px: int, py: int|
            icon_covers(scaled, icon_region(before, policy), px, py) ==> #[trigger] image_pixel(
                after,
                px,
                py,
            ) == format.stored(color),
{
    let region = icon_region(before, policy);
    assert(is_uniform_image(scaled, color));
    lemma_icon_fits_region(before, icon, policy, scaled, after);
    assert forall|px: int, py: int|
        icon_covers(scaled, region, px, py) implies #[trigger] image_pixel(after, px, py)
        == format.stored(color) by {
        assert(on_image(scaled, px - region.left, py - region.top));
        assert(image_pixel(scaled, px - region.left, py - region.top) == color);
    }
}

/// In a layout of red, green and blue, an opaque pixel is stored as it is:
/// a picture of such a layout shows the very pixel of an opaque icon.
pub proof fn lemma_color_layout_stores_opaque_pixel(format: ColorFormat, pixel: Pixel)
    requires
        !format.is_luminance(),
        pixel.is_opaque(),
    ensures
        format.stored(pixel) == pixel,
{
}

/// A luminance layout stores a pixel as a shade of gray, and a gray pixel
/// that is opaque, or has a place for its alpha, as it is.
pub proof fn lemma_luminance_layout_stores_gray(format: ColorFormat, pixel: Pixel)
    requires
        format.is_luminance(),
    ensures
        format.stored(pixel).is_gray(),
        pixel.is_gray() && (pixel.is_opaque() || format.has_alpha()) ==> format.stored(pixel)
            == pixel,
{
}

/// With a transparent scaled icon the picture shows through everywhere: no
/// pixel changes.
pub proof fn lemma_transparent_icon_changes_nothing(
    before: DynamicImage,
    icon: DynamicImage,
    policy: PlacementPolicy,
    scaled: DynamicImage,
    after: DynamicImage,
)
    requires
        iconified_with(before, icon, policy, scaled, after),
        is_transparent_image(scaled),
        image_format(before) is Some,
    ensures
        forall|px: int, py: int|
            on_image(before, px, py) ==> #[trigger] image_pixel(after, px, py) == image_pixel(
                before,
                px,
                py,
            ),
{
    let region = icon_region(before, policy);
    lemma_icon_fits_region(before, icon, policy, scaled, after);
    assert forall|px: int, py: int| on_image(before, px, py) implies #[trigger] image_pixel(
        after,
        px,
        py,
    ) == image_pixel(before, px, py) by {
        if icon_covers(scaled, region, px, py) {
            assert(on_image(scaled, px - region.left, py - region.top));
            assert(image_pixel(scaled, px - region.left, py - region.top).is_transparent());
        }
    }
}

} // verus!
