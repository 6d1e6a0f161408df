use icon_compositor::error::CompositorError;
use icon_compositor::geometry::PlacementPolicy;
use icon_compositor::overlay::{overlay_icon_over_pfp, scale_icon, with_icon};
use image::{
    ColorType, DynamicImage, GenericImageView, GrayImage, Luma, Rgb, RgbImage, Rgba, RgbaImage,
};

const BLUE: Rgba<u8> = Rgba([0, 0, 255, 255]);
const RED: Rgba<u8> = Rgba([255, 0, 0, 255]);

fn plain(width: u32, height: u32, colour: Rgba<u8>) -> DynamicImage {
    DynamicImage::from(RgbaImage::from_pixel(width, height, colour))
}

fn patterned(width: u32, height: u32, alpha: u8) -> DynamicImage {
    let mut buffer = RgbaImage::new(width, height);
    for (x, y, pixel) in buffer.enumerate_pixels_mut() {
        *pixel = Rgba([(x * 5 % 256) as u8, (y * 7 % 256) as u8, ((x + y) % 256) as u8, alpha]);
    }
    DynamicImage::from(buffer)
}

fn size(img: &DynamicImage) -> (u32, u32) {
    (img.width(), img.height())
}

#[test]
fn square_icon_fills_the_padded_nonant_of_a_300_by_300_picture() {
    let icon = plain(50, 50, RED);
    let scaled = scale_icon(&icon, 80, 80).unwrap().unwrap();
    assert_eq!(size(&scaled), (80, 80));

    let before = plain(300, 300, BLUE);
    let mut picture = before.clone();
    overlay_icon_over_pfp(&mut picture, &icon, PlacementPolicy::PaddedNonant).unwrap();
    assert_eq!(size(&picture), (300, 300));
    for (x, y, pixel) in picture.pixels() {
        if (210..290).contains(&x) && (210..290).contains(&y) {
            assert_eq!(pixel, scaled.get_pixel(x - 210, y - 210), "at {x},{y}");
            assert_ne!(pixel, BLUE, "at {x},{y}");
        } else {
            assert_eq!(pixel, BLUE, "at {x},{y}");
        }
    }
}

#[test]
fn scale_icon_fits_the_bounds_and_meets_one() {
    let cases: [((u32, u32), (u32, u32), (u32, u32)); 8] = [
        ((50, 50), (80, 80), (80, 80)),
        ((100, 50), (80, 80), (80, 40)),
        ((50, 100), (80, 80), (40, 80)),
        ((400, 400), (80, 80), (80, 80)),
        ((1000, 10), (80, 80), (80, 1)),
        ((3, 1000), (80, 80), (1, 80)),
        ((64, 64), (266, 213), (213, 213)),
        ((1, 1), (1, 1), (1, 1)),
    ];
    for (icon, bounds, expected) in cases {
        let scaled = scale_icon(&DynamicImage::new_rgba8(icon.0, icon.1), bounds.0, bounds.1)
            .unwrap()
            .unwrap();
        assert_eq!(size(&scaled), expected, "{icon:?} into {bounds:?}");
    }
}

#[test]
fn scale_icon_never_exceeds_the_bounds() {
    for icon in [(7u32, 3u32), (3, 7), (33, 32), (200, 199), (1, 90), (90, 1)] {
        for bounds in [(1u32, 1u32), (5, 80), (80, 5), (80, 80), (133, 106)] {
            let scaled = scale_icon(&DynamicImage::new_luma8(icon.0, icon.1), bounds.0, bounds.1)
                .unwrap()
                .unwrap();
            let (w, h) = size(&scaled);
            assert!(1 <= w && w <= bounds.0, "{icon:?} into {bounds:?} gave {w}x{h}");
            assert!(1 <= h && h <= bounds.1, "{icon:?} into {bounds:?} gave {w}x{h}");
            assert!(w == bounds.0 || h == bounds.1, "{icon:?} into {bounds:?} gave {w}x{h}");
        }
    }
}

/// Whether `scaled` is `length * numerator / denominator` rounded to whole
/// pixels, between one pixel and `bound`.
fn is_proportional(length: i64, numerator: i64, denominator: i64, bound: i64, scaled: i64) -> bool {
    let exact = length * numerator;
    1 <= scaled
        && scaled <= bound
        && (scaled * denominator - exact).abs() <= denominator
        && (exact % denominator != 0 || scaled * denominator == exact)
}

#[test]
fn scale_icon_meets_the_tighter_bound_and_keeps_the_proportion() {
    for width in 1..=24u32 {
        for height in [1u32, 2, 3, 5, 8, 13, 21, 24] {
            let icon = DynamicImage::new_luma8(width, height);
            for bound_width in [1u32, 2, 7, 16, 30] {
                for bound_height in [1u32, 3, 7, 15, 30] {
                    let scaled = scale_icon(&icon, bound_width, bound_height).unwrap().unwrap();
                    let (w, h) = (i64::from(width), i64::from(height));
                    let (bw, bh) = (i64::from(bound_width), i64::from(bound_height));
                    let (sw, sh) = (i64::from(scaled.width()), i64::from(scaled.height()));
                    let fits = if bw * h <= bh * w {
                        sw == bw && is_proportional(h, bw, w, bh, sh)
                    } else {
                        sh == bh && is_proportional(w, bh, h, bw, sw)
                    };
                    assert!(
                        fits,
                        "{width}x{height} into {bound_width}x{bound_height} gave {sw}x{sh}"
                    );
                }
            }
        }
    }
}

#[test]
fn scale_icon_keeps_the_color_type() {
    for color in [ColorType::L8, ColorType::Rgb8, ColorType::Rgba16, ColorType::Rgb32F] {
        let scaled = scale_icon(&DynamicImage::new(20, 10, color), 80, 80).unwrap().unwrap();
        assert_eq!(scaled.color(), color);
        assert_eq!(size(&scaled), (80, 40));
    }
}

#[test]
fn scale_icon_has_nothing_to_scale_without_pixels_or_room() {
    assert_eq!(scale_icon(&DynamicImage::new_rgba8(0, 10), 80, 80), Ok(None));
    assert_eq!(scale_icon(&DynamicImage::new_rgba8(10, 0), 80, 80), Ok(None));
    assert_eq!(scale_icon(&DynamicImage::new_rgba8(10, 10), 0, 80), Ok(None));
    assert_eq!(scale_icon(&DynamicImage::new_rgba8(10, 10), 80, 0), Ok(None));
}

#[test]
fn scale_icon_takes_a_very_wide_icon() {
    let wide = DynamicImage::new_luma8(2_000_000, 1);
    let scaled = scale_icon(&wide, 80, 80).unwrap().unwrap();
    assert_eq!(size(&scaled), (80, 1));
}

#[test]
fn scale_icon_refuses_a_scaled_icon_beyond_the_pixel_budget() {
    let small = DynamicImage::new_luma8(2, 2);
    assert_eq!(scale_icon(&small, 20_000, 20_000), Err(CompositorError::ImageTooLarge));
    assert_eq!(scale_icon(&small, u32::MAX, u32::MAX), Err(CompositorError::ImageTooLarge));
}

#[test]
fn scale_icon_to_its_own_size_is_a_copy() {
    let icon = patterned(23, 17, 140);
    let scaled = scale_icon(&icon, 23, 17).unwrap().unwrap();
    assert_eq!(scaled, icon);
}

/// An opaque picture of many colours in the given colour type.
fn opaque(width: u32, height: u32, color: ColorType) -> DynamicImage {
    let picture = patterned(width, height, 255);
    match color {
        ColorType::L8 => DynamicImage::from(picture.to_luma8()),
        ColorType::La8 => DynamicImage::from(picture.to_luma_alpha8()),
        ColorType::Rgb8 => DynamicImage::from(picture.to_rgb8()),
        ColorType::Rgba8 => picture,
        ColorType::L16 => DynamicImage::from(picture.to_luma16()),
        ColorType::Rgb16 => DynamicImage::from(picture.to_rgb16()),
        ColorType::Rgb32F => DynamicImage::from(picture.to_rgb32f()),
        _ => unreachable!(),
    }
}

const SCALINGS: [((u32, u32), (u32, u32)); 6] = [
    ((50, 50), (80, 80)),
    ((7, 3), (133, 106)),
    ((400, 300), (80, 80)),
    ((1024, 512), (4, 4)),
    ((2048, 8), (8, 8)),
    ((3, 2000), (80, 8)),
];

#[test]
fn scale_icon_keeps_an_opaque_icon_opaque() {
    // the alpha has eight bits, or there is none
    let colors = [
        ColorType::L8,
        ColorType::La8,
        ColorType::Rgb8,
        ColorType::Rgba8,
        ColorType::L16,
        ColorType::Rgb16,
        ColorType::Rgb32F,
    ];
    for color in colors {
        for (icon, bounds) in SCALINGS {
            let icon = opaque(icon.0, icon.1, color);
            let scaled = scale_icon(&icon, bounds.0, bounds.1).unwrap().unwrap();
            assert!(icon.width() <= 256 * scaled.width());
            assert!(icon.height() <= 256 * scaled.height());
            for (x, y, pixel) in scaled.pixels() {
                assert_eq!(pixel.0[3], 255, "{color:?} {bounds:?} at {x},{y}");
            }
        }
    }
}

#[test]
fn scale_icon_keeps_an_icon_of_one_colour_in_that_colour() {
    let colour = Rgba([200, 90, 10, 255]);
    let faint = Rgba([1, 254, 128, 37]);
    for (icon, bounds) in SCALINGS {
        for pixel in [colour, faint, RED, BLUE] {
            let rgba = plain(icon.0, icon.1, pixel);
            let icons = [
                DynamicImage::from(rgba.to_luma8()),
                DynamicImage::from(rgba.to_luma_alpha8()),
                DynamicImage::from(rgba.to_rgb8()),
                rgba,
            ];
            for icon in icons {
                let expected = icon.get_pixel(0, 0);
                let scaled = scale_icon(&icon, bounds.0, bounds.1).unwrap().unwrap();
                for (x, y, pixel) in scaled.pixels() {
                    assert_eq!(pixel, expected, "{:?} {bounds:?} at {x},{y}", icon.color());
                }
            }
        }
    }
}

#[test]
fn sixteen_bit_alpha_that_reads_as_opaque_need_not_stay_so() {
    // every alpha reads as 255, but one sample stands out from the others
    let mut buffer = image::ImageBuffer::from_pixel(50, 50, Rgba([0u16, 0, 0, 65408]));
    buffer.put_pixel(10, 10, Rgba([0u16, 0, 0, 65535]));
    let icon = DynamicImage::from(buffer);
    for (_, _, pixel) in icon.pixels() {
        assert_eq!(pixel.0[3], 255);
    }
    let scaled = scale_icon(&icon, 80, 80).unwrap().unwrap();
    assert_eq!(size(&scaled), (80, 80));
    assert!(scaled.pixels().any(|(_, _, pixel)| pixel.0[3] != 255));
}

#[test]
fn opaque_icon_replaces_pixels_of_a_picture_without_alpha() {
    let icon = plain(10, 10, RED);
    let before = DynamicImage::from(RgbImage::from_pixel(60, 60, Rgb([1, 2, 3])));
    let picture = with_icon(&before, &icon, PlacementPolicy::SimpleNonant).unwrap();
    assert_eq!(picture.color(), ColorType::Rgb8);
    let scaled = scale_icon(&icon, 20, 20).unwrap().unwrap();
    for (x, y, pixel) in picture.pixels() {
        if x >= 40 && y >= 40 {
            assert_eq!(pixel, scaled.get_pixel(x - 40, y - 40), "at {x},{y}");
        } else {
            assert_eq!(pixel, Rgba([1, 2, 3, 255]), "at {x},{y}");
        }
    }
}

#[test]
fn transparent_icon_changes_nothing() {
    let icon = plain(50, 50, Rgba([255, 0, 0, 0]));
    let before = patterned(300, 300, 200);
    let picture = with_icon(&before, &icon, PlacementPolicy::PaddedNonant).unwrap();
    assert_eq!(picture, before);
}

#[test]
fn translucent_icon_blends_with_the_picture() {
    let icon = plain(50, 50, Rgba([255, 0, 0, 128]));
    let before = plain(300, 300, BLUE);
    let picture = with_icon(&before, &icon, PlacementPolicy::PaddedNonant).unwrap();
    let pixel = picture.get_pixel(250, 250);
    assert!(pixel.0[0] > 100 && pixel.0[0] < 160, "{pixel:?}");
    assert_eq!(pixel.0[1], 0);
    assert!(pixel.0[2] > 100 && pixel.0[2] < 160, "{pixel:?}");
    assert!(pixel.0[3] >= 254, "{pixel:?}");
    assert_eq!(picture.get_pixel(209, 250), BLUE);
}

#[test]
fn coloured_icon_turns_gray_on_a_gray_picture() {
    let icon = plain(10, 10, RED);
    let before = DynamicImage::from(GrayImage::from_pixel(60, 60, Luma([200])));
    let picture = with_icon(&before, &icon, PlacementPolicy::SimpleNonant).unwrap();
    assert_eq!(picture.color(), ColorType::L8);
    let inside = picture.get_pixel(50, 50);
    assert_eq!(inside.0[0], inside.0[1]);
    assert_eq!(inside.0[1], inside.0[2]);
    assert_ne!(inside, Rgba([200, 200, 200, 255]));
    assert_eq!(picture.get_pixel(39, 50), Rgba([200, 200, 200, 255]));
}

#[test]
fn overlay_keeps_size_and_layout_and_what_lies_outside_for_every_color_type() {
    let colors = [
        ColorType::L8,
        ColorType::La8,
        ColorType::Rgb8,
        ColorType::Rgba8,
        ColorType::L16,
        ColorType::La16,
        ColorType::Rgb16,
        ColorType::Rgba16,
        ColorType::Rgb32F,
        ColorType::Rgba32F,
    ];
    let icon = patterned(9, 9, 255);
    for color in colors {
        let before = DynamicImage::new(60, 45, color);
        let picture = with_icon(&before, &icon, PlacementPolicy::PaddedNonant).unwrap();
        assert_eq!(picture.color(), color);
        assert_eq!(size(&picture), (60, 45));
        // the region runs from (42, 31) to (58, 43)
        for (x, y, pixel) in picture.pixels() {
            if !((42..58).contains(&x) && (31..43).contains(&y)) {
                assert_eq!(pixel, before.get_pixel(x, y), "{color:?} at {x},{y}");
            }
        }
        assert_ne!(picture, before, "{color:?}");
    }
}

#[test]
fn transparent_icon_changes_nothing_on_a_picture_without_alpha() {
    let icon = plain(10, 10, Rgba([255, 0, 0, 0]));
    let mut buffer = RgbImage::new(60, 60);
    for (x, y, pixel) in buffer.enumerate_pixels_mut() {
        *pixel = Rgb([(x * 4) as u8, (y * 4) as u8, 77]);
    }
    let before = DynamicImage::from(buffer);
    let picture = with_icon(&before, &icon, PlacementPolicy::SimpleNonant).unwrap();
    assert_eq!(picture, before);
}

#[test]
fn simple_nonant_places_the_icon_at_two_thirds() {
    let icon = plain(10, 10, RED);
    let before = plain(90, 60, BLUE);
    let picture = with_icon(&before, &icon, PlacementPolicy::SimpleNonant).unwrap();
    // the region is 30 by 20, so the icon becomes 20 by 20 at (60, 40)
    for (x, y, pixel) in picture.pixels() {
        let covered = (60..80).contains(&x) && (40..60).contains(&y);
        assert_eq!(pixel != BLUE, covered, "at {x},{y}");
    }
}

#[test]
fn overlay_leaves_the_picture_alone_when_there_is_nothing_to_draw() {
    let before = patterned(3, 3, 255);
    let mut picture = before.clone();
    overlay_icon_over_pfp(&mut picture, &plain(5, 5, RED), PlacementPolicy::PaddedNonant).unwrap();
    assert_eq!(picture, before);

    let before = patterned(300, 300, 255);
    let mut picture = before.clone();
    let no_pixels = DynamicImage::new_rgba8(0, 0);
    overlay_icon_over_pfp(&mut picture, &no_pixels, PlacementPolicy::PaddedNonant).unwrap();
    assert_eq!(picture, before);
}

#[test]
fn overlay_draws_a_very_wide_icon_as_one_row() {
    let before = plain(300, 300, BLUE);
    let mut picture = before.clone();
    let wide = DynamicImage::from(RgbaImage::from_pixel(2_000_000, 1, RED));
    overlay_icon_over_pfp(&mut picture, &wide, PlacementPolicy::PaddedNonant).unwrap();
    for (x, y, pixel) in picture.pixels() {
        let covered = (210..290).contains(&x) && y == 210;
        assert_eq!(pixel != BLUE, covered, "at {x},{y}");
    }
}

#[test]
fn overlay_fails_and_leaves_the_picture_alone_where_the_scaled_icon_is_beyond_the_budget() {
    // the region is 11,667 pixels wide and high, and a square icon fills it
    let mut picture = DynamicImage::new_luma8(35_000, 35_000);
    let icon = plain(4, 4, RED);
    let result = overlay_icon_over_pfp(&mut picture, &icon, PlacementPolicy::SimpleNonant);
    assert_eq!(result, Err(CompositorError::ImageTooLarge));
    assert_eq!(size(&picture), (35_000, 35_000));
    assert_eq!(picture.get_pixel(30_000, 30_000), Rgba([0, 0, 0, 255]));
}

/// What a pixel reads as once it is stored in a picture of the colour type.
fn stored(color: ColorType, pixel: Rgba<u8>) -> Rgba<u8> {
    let [r, g, b, a] = pixel.0;
    let luma = ((2126 * u32::from(r) + 7152 * u32::from(g) + 722 * u32::from(b)) / 10000) as u8;
    match color {
        ColorType::L8 | ColorType::L16 => Rgba([luma, luma, luma, 255]),
        ColorType::La8 | ColorType::La16 => Rgba([luma, luma, luma, a]),
        ColorType::Rgb8 | ColorType::Rgb16 | ColorType::Rgb32F => Rgba([r, g, b, 255]),
        _ => pixel,
    }
}

#[test]
fn opaque_icon_replaces_what_it_covers_in_every_color_type() {
    let colors = [
        ColorType::L8,
        ColorType::La8,
        ColorType::Rgb8,
        ColorType::Rgba8,
        ColorType::L16,
        ColorType::La16,
        ColorType::Rgb16,
        ColorType::Rgba16,
        ColorType::Rgb32F,
        ColorType::Rgba32F,
    ];
    let icon = patterned(16, 12, 255);
    for color in colors {
        let before = DynamicImage::new(60, 45, color);
        let picture = with_icon(&before, &icon, PlacementPolicy::PaddedNonant).unwrap();
        // the region runs from (42, 31) to (58, 43) and has the icon's size
        for y in 0..12 {
            for x in 0..16 {
                let expected = stored(color, icon.get_pixel(x, y));
                assert_eq!(picture.get_pixel(42 + x, 31 + y), expected, "{color:?} at {x},{y}");
            }
        }
    }
}

#[test]
fn transparent_icon_changes_nothing_in_any_color_type() {
    let colors = [
        ColorType::L8,
        ColorType::La8,
        ColorType::Rgb8,
        ColorType::Rgba8,
        ColorType::L16,
        ColorType::La16,
        ColorType::Rgb16,
        ColorType::Rgba16,
        ColorType::Rgb32F,
        ColorType::Rgba32F,
    ];
    let icon = patterned(16, 12, 0);
    let colourful = patterned(60, 45, 200);
    for color in colors {
        let before = match color {
            ColorType::L8 => DynamicImage::from(colourful.to_luma8()),
            ColorType::La8 => DynamicImage::from(colourful.to_luma_alpha8()),
            ColorType::Rgb8 => DynamicImage::from(colourful.to_rgb8()),
            ColorType::Rgba8 => colourful.clone(),
            ColorType::L16 => DynamicImage::from(colourful.to_luma16()),
            ColorType::La16 => DynamicImage::from(colourful.to_luma_alpha16()),
            ColorType::Rgb16 => DynamicImage::from(colourful.to_rgb16()),
            ColorType::Rgba16 => DynamicImage::from(colourful.to_rgba16()),
            ColorType::Rgb32F => DynamicImage::from(colourful.to_rgb32f()),
            _ => DynamicImage::from(colourful.to_rgba32f()),
        };
        let picture = with_icon(&before, &icon, PlacementPolicy::PaddedNonant).unwrap();
        for (x, y, pixel) in picture.pixels() {
            assert_eq!(pixel, before.get_pixel(x, y), "{color:?} at {x},{y}");
        }
    }
}

#[test]
fn with_icon_does_not_touch_the_template() {
    let template = patterned(120, 90, 255);
    let kept = template.clone();
    let first = with_icon(&template, &plain(8, 8, RED), PlacementPolicy::PaddedNonant).unwrap();
    assert_eq!(template, kept);
    let second = with_icon(&template, &plain(8, 8, BLUE), PlacementPolicy::PaddedNonant).unwrap();
    assert_eq!(template, kept);
    assert_ne!(first, second);
    // the second picture shows nothing of the first icon
    let again = with_icon(&kept, &plain(8, 8, BLUE), PlacementPolicy::PaddedNonant).unwrap();
    assert_eq!(second, again);
}

#[test]
fn with_icon_twice_gives_the_same_picture() {
    let template = patterned(200, 150, 255);
    let icon = patterned(31, 17, 180);
    let first = with_icon(&template, &icon, PlacementPolicy::SimpleNonant).unwrap();
    let second = with_icon(&template, &icon, PlacementPolicy::SimpleNonant).unwrap();
    assert_eq!(first, second);
}
