//! Where an icon goes on a profile picture, and how large it may be.

use vstd::prelude::*;

verus! {

/// The most pixels that any one buffer may hold while a picture is scaled
/// or recoded. At sixteen bytes for the widest pixel, a buffer of this many
/// pixels still fits the address space of a 32-bit machine.
pub const MAX_PIXELS: u64 = 134_217_727;

/// Whether a buffer of `width` by `height` pixels is within [`MAX_PIXELS`].
pub open spec fn within_pixel_budget(width: int, height: int) -> bool {
    width * height <= MAX_PIXELS
}

/// The product of two sides, which fits 64 bits.
fn area(width: u32, height: u32) -> (r: u64)
    ensures
        r == width * height,
        r <= 0xffff_ffff * 0xffff_ffff,
{
    assert(width as int * height as int <= 0xffff_ffff * 0xffff_ffff) by (nonlinear_arith)
        requires
            0 <= width <= 0xffff_ffff,
            0 <= height <= 0xffff_ffff,
    ;
    (width as u64) * (height as u64)
}

/// Decides [`within_pixel_budget`].
pub fn fits_pixel_budget(width: u32, height: u32) -> (r: bool)
    ensures
        r == within_pixel_budget(width as int, height as int),
{
    area(width, height) <= MAX_PIXELS
}

/// The most rows that a picture of `width` by `height` pixels can have once
/// it is scaled to fit within `bound_width` by `bound_height`: where the
/// width is the tighter side, one more than the proportional height, and
/// never more than the bound.
pub open spec fn most_scaled_rows(
    width: int,
    height: int,
    bound_width: int,
    bound_height: int,
) -> int {
    let proportional = height * bound_width / width + 1;
    if 0 < width && bound_width * height <= bound_height * width && proportional < bound_height {
        proportional
    } else {
        bound_height
    }
}

/// Whether the two buffers that scaling a picture takes are within the pixel
/// budget: one as wide as the picture and one as wide as the bounds, each
/// with as many rows as the scaled picture can have.
pub open spec fn scaling_within_budget(
    width: int,
    height: int,
    bound_width: int,
    bound_height: int,
) -> bool {
    let rows = most_scaled_rows(width, height, bound_width, bound_height);
    within_pixel_budget(width, rows) && within_pixel_budget(bound_width, rows)
}

/// Decides [`scaling_within_budget`].
pub fn fits_scaling_budget(
    width: u32,
    height: u32,
    bound_width: u32,
    bound_height: u32,
) -> (r: bool)
    ensures
        r == scaling_within_budget(
            width as int,
            height as int,
            bound_width as int,
            bound_height as int,
        ),
{
    let exact: u64 = area(height, bound_width);
    let mut rows: u32 = bound_height;
    if width > 0 && area(bound_width, height) <= area(bound_height, width) {
        let proportional: u64 = exact / (width as u64) + 1;
        if proportional < bound_height as u64 {
            rows = proportional as u32;
        }
    }
    fits_pixel_budget(width, rows) && fits_pixel_budget(bound_width, rows)
}

/// How the target rectangle is derived from the picture's size.
#[derive(Clone, Copy, Debug, PartialEq, Eq, Structural)]
pub enum PlacementPolicy {
    /// The bottom-right cell of a 3x3 grid, from two thirds of the width and
    /// height to the far edges.
    SimpleNonant,
    /// The bottom-right cell of a 3x3 grid, shrunk by a tenth of a cell on
    /// every side: from 21/30 to 29/30 of the width and height.
    PaddedNonant,
}

/// An axis-aligned region of a picture in pixel coordinates: `left` and `top`
/// are the first column and row inside it, `right` and `bottom` the first
/// ones past it.
pub ghost struct Region {
    pub left: int,
    pub top: int,
    pub right: int,
    pub bottom: int,
}

impl Region {
    /// The corners are non-negative and the top-left one is not past the
    /// bottom-right one.
    pub open spec fn well_formed(self) -> bool {
        0 <= self.left <= self.right && 0 <= self.top <= self.bottom
    }

    /// The number of columns inside.
    pub open spec fn width(self) -> int {
        self.right - self.left
    }

    /// The number of rows inside.
    pub open spec fn height(self) -> int {
        self.bottom - self.top
    }

    /// No pixel lies inside.
    pub open spec fn is_empty(self) -> bool {
        self.width() == 0 || self.height() == 0
    }

    /// The pixel in column `x` and row `y` lies inside.
    pub open spec fn contains(self, x: int, y: int) -> bool {
        self.left <= x < self.right && self.top <= y < self.bottom
    }

    /// The whole region lies on a picture of the given size.
    pub open spec fn within(self, width: int, height: int) -> bool {
        self.right <= width && self.bottom <= height
    }
}

/// The region that a placement policy assigns to the icon on a picture of
/// the given size. Fractions of a pixel are cut off.
pub open spec fn target_region(policy: PlacementPolicy, width: int, height: int) -> Region {
    match policy {
        PlacementPolicy::SimpleNonant => Region {
            left: width * 2 / 3,
            top: height * 2 / 3,
            right: width,
            bottom: height,
        },
        PlacementPolicy::PaddedNonant => Region {
            left: width * 21 / 30,
            top: height * 21 / 30,
            right: width * 29 / 30,
            bottom: height * 29 / 30,
        },
    }
}

/// A [`Region`] with corners that fit `u32`. The top-left corner is never
/// past the bottom-right one.
#[derive(Clone, Copy, Debug)]
pub struct Rectangle {
    left: u32,
    top: u32,
    right: u32,
    bottom: u32,
}

impl View for Rectangle {
    type V = Region;

    closed spec fn view(&self) -> Region {
        Region {
            left: self.left as int,
            top: self.top as int,
            right: self.right as int,
            bottom: self.bottom as int,
        }
    }
}

impl Rectangle {
    #[verifier::type_invariant]
    spec fn corners_ordered(self) -> bool {
        self.left <= self.right && self.top <= self.bottom
    }

    /// The rectangle with the given corners, if the first is not past the
    /// second.
    pub fn new(left: u32, top: u32, right: u32, bottom: u32) -> (r: Option<Rectangle>)
        ensures
            r is Some <==> left <= right && top <= bottom,
            r matches Some(rect) ==> rect@ == (Region {
                left: left as int,
                top: top as int,
                right: right as int,
                bottom: bottom as int,
            }),
    {
        if left <= right && top <= bottom {
            Some(Rectangle { left, top, right, bottom })
        } else {
            None
        }
    }

    /// The first column inside.
    pub fn left(&self) -> (r: u32)
        ensures
            r == self@.left,
    {
        self.left
    }

    /// The first row inside.
    pub fn top(&self) -> (r: u32)
        ensures
            r == self@.top,
    {
        self.top
    }

    /// The first column past the right edge.
    pub fn right(&self) -> (r: u32)
        ensures
            r == self@.right,
    {
        self.right
    }

    /// The first row past the bottom edge.
    pub fn bottom(&self) -> (r: u32)
        ensures
            r == self@.bottom,
    {
        self.bottom
    }

    /// The number of columns inside.
    pub fn width(&self) -> (r: u32)
        ensures
            self@.well_formed(),
            r == self@.width(),
    {
        proof {
            use_type_invariant(self);
        }
        self.right - self.left
    }

    /// The number of rows inside.
    pub fn height(&self) -> (r: u32)
        ensures
            self@.well_formed(),
            r == self@.height(),
    {
        proof {
            use_type_invariant(self);
        }
        self.bottom - self.top
    }

    /// Whether no pixel lies inside.
    pub fn is_empty(&self) -> (r: bool)
        ensures
            self@.well_formed(),
            r == self@.is_empty(),
    {
        proof {
            use_type_invariant(self);
        }
        self.left == self.right || self.top == self.bottom
    }
}

/// `numerator / denominator` of `length`, fractions cut off.
fn fraction_of(length: u32, numerator: u64, denominator: u64) -> (r: u32)
    requires
        0 < denominator,
        numerator <= denominator <= 30,
    ensures
        r == length * numerator / (denominator as int),
        r <= length,
{
    assert(length * numerator <= length * denominator && length * numerator <= 30 * 0xffff_ffff)
        by (nonlinear_arith)
        requires
            0 <= length <= 0xffff_ffff,
            0 <= numerator <= denominator <= 30,
    ;
    assert(length * numerator / (denominator as int) <= length) by (nonlinear_arith)
        requires
            0 <= length * numerator <= length * denominator,
            0 < denominator,
    ;
    ((length as u64) * numerator / denominator) as u32
}

/// The rectangle that a placement policy assigns to the icon on a picture
/// of `width` by `height` pixels.
pub fn target_rectangle(policy: PlacementPolicy, width: u32, height: u32) -> (r: Rectangle)
    ensures
        r@ == target_region(policy, width as int, height as int),
        r@.well_formed(),
        r@.within(width as int, height as int),
{
    match policy {
        PlacementPolicy::SimpleNonant => Rectangle {
            left: fraction_of(width, 2, 3),
            top: fraction_of(height, 2, 3),
            right: width,
            bottom: height,
        },
        PlacementPolicy::PaddedNonant => Rectangle {
            left: fraction_of(width, 21, 30),
            top: fraction_of(height, 21, 30),
            right: fraction_of(width, 29, 30),
            bottom: fraction_of(height, 29, 30),
        },
    }
}

/// A picture of `width` by `height` pixels was scaled to `scaled_width` by
/// `scaled_height` pixels so that it is as large as fits within
/// `bound_width` by `bound_height`, keeping its aspect ratio. The side whose
/// bound is the tighter one meets it exactly. The other side is at least one
/// pixel long and within one pixel of its proportional length, and is that
/// length exactly where it is a whole number of pixels.
pub open spec fn scaled_to_fit(
    width: int,
    height: int,
    bound_width: int,
    bound_height: int,
    scaled_width: int,
    scaled_height: int,
) -> bool {
    if bound_width * height <= bound_height * width {
        &&& scaled_width == bound_width
        &&& proportional_side(height, bound_width, width, bound_height, scaled_height)
    } else {
        &&& scaled_height == bound_height
        &&& proportional_side(width, bound_height, height, bound_width, scaled_width)
    }
}

/// `scaled` is within one pixel of `length * numerator / denominator`.
pub open spec fn within_one_pixel(
    scaled: int,
    length: int,
    numerator: int,
    denominator: int,
) -> bool {
    -denominator <= scaled * denominator - length * numerator <= denominator
}

/// `scaled` is a side of `length` pixels scaled by `numerator / denominator`
/// and rounded to whole pixels, no shorter than one pixel and no longer than
/// `bound`.
pub open spec fn proportional_side(
    length: int,
    numerator: int,
    denominator: int,
    bound: int,
    scaled: int,
) -> bool {
    &&& 1 <= scaled <= bound
    &&& within_one_pixel(scaled, length, numerator, denominator)
    &&& (length * numerator) % denominator == 0 ==> scaled * denominator == length * numerator
}

/// A picture scaled to fit exceeds neither bound and meets at least one.
pub proof fn lemma_scaled_to_fit_is_tight(
    width: int,
    height: int,
    bound_width: int,
    bound_height: int,
    scaled_width: int,
    scaled_height: int,
)
    requires
        scaled_to_fit(width, height, bound_width, bound_height, scaled_width, scaled_height),
    ensures
        scaled_width <= bound_width,
        scaled_height <= bound_height,
        scaled_width == bound_width || scaled_height == bound_height,
{
}

/// A picture whose aspect ratio is that of the bounds fills them: scaled to
/// fit, it meets both bounds.
pub proof fn lemma_same_aspect_fills_bounds(
    width: int,
    height: int,
    bound_width: int,
    bound_height: int,
    scaled_width: int,
    scaled_height: int,
)
    requires
        0 < width,
        0 < height,
        bound_width * height == bound_height * width,
        scaled_to_fit(width, height, bound_width, bound_height, scaled_width, scaled_height),
    ensures
        scaled_width == bound_width,
        scaled_height == bound_height,
{
    assert((height * bound_width) % width == 0 && height * bound_width == bound_height * width)
        by (nonlinear_arith)
        requires
            0 < width,
            bound_width * height == bound_height * width,
    ;
    assert(scaled_height == bound_height) by (nonlinear_arith)
        requires
            0 < width,
            scaled_height * width == bound_height * width,
    ;
}

/// Scaling is within the pixel budget whenever the picture and the bounds
/// each hold no more than half the budget.
pub proof fn lemma_modest_sizes_are_within_budget(
    width: int,
    height: int,
    bound_width: int,
    bound_height: int,
)
    requires
        1 <= width,
        1 <= height,
        1 <= bound_width,
        1 <= bound_height,
        2 * (width * height) <= MAX_PIXELS,
        2 * (bound_width * bound_height) <= MAX_PIXELS,
    ensures
        scaling_within_budget(width, height, bound_width, bound_height),
{
    let rows = most_scaled_rows(width, height, bound_width, bound_height);
    let exact = height * bound_width;
    assert(1 <= rows <= bound_height && (bound_width * height <= bound_height * width ==> rows
        <= exact / width + 1)) by (nonlinear_arith)
        requires
            1 <= width,
            1 <= height,
            1 <= bound_width,
            1 <= bound_height,
            exact == height * bound_width,
            rows == most_scaled_rows(width, height, bound_width, bound_height),
    ;
    assert(bound_width * rows <= bound_width * bound_height) by (nonlinear_arith)
        requires
            1 <= bound_width,
            rows <= bound_height,
    ;
    assert(width <= width * height) by (nonlinear_arith)
        requires
            1 <= width,
            1 <= height,
    ;
    if bound_width * height <= bound_height * width {
        // the width is the tighter side: at most the proportional rows and one more
        assert(width * rows <= exact + width) by (nonlinear_arith)
            requires
                1 <= width,
                0 <= exact,
                rows <= exact / width + 1,
        ;
        assert(exact <= width * height || exact <= bound_width * bound_height)
            by (nonlinear_arith)
            requires
                1 <= width,
                1 <= height,
                1 <= bound_width,
                1 <= bound_height,
                exact == height * bound_width,
                bound_width * height <= bound_height * width,
        ;
    } else {
        // the height is the tighter side: every row of the bounds
        assert(width * rows <= width * height || width * rows <= bound_width * bound_height)
            by (nonlinear_arith)
            requires
                1 <= width,
                1 <= height,
                1 <= bound_width,
                1 <= bound_height,
                rows == bound_height,
                bound_width * height > bound_height * width,
        ;
    }
}

} // verus!
