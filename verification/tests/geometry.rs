use icon_compositor::geometry::{
    fits_pixel_budget, fits_scaling_budget, target_rectangle, PlacementPolicy, Rectangle,
    MAX_PIXELS,
};

fn corners(r: &Rectangle) -> (u32, u32, u32, u32) {
    (r.left(), r.top(), r.right(), r.bottom())
}

#[test]
fn padded_nonant_on_300_by_300_is_210_to_290() {
    let r = target_rectangle(PlacementPolicy::PaddedNonant, 300, 300);
    assert_eq!(corners(&r), (210, 210, 290, 290));
    assert_eq!((r.width(), r.height()), (80, 80));
    assert!(!r.is_empty());
}

#[test]
fn padded_nonant_cuts_fractions_off() {
    let r = target_rectangle(PlacementPolicy::PaddedNonant, 1000, 800);
    assert_eq!(corners(&r), (700, 560, 966, 773));
    assert_eq!((r.width(), r.height()), (266, 213));
    let r = target_rectangle(PlacementPolicy::PaddedNonant, 500, 400);
    assert_eq!(corners(&r), (350, 280, 483, 386));
}

#[test]
fn simple_nonant_runs_from_two_thirds_to_the_far_edge() {
    let r = target_rectangle(PlacementPolicy::SimpleNonant, 300, 300);
    assert_eq!(corners(&r), (200, 200, 300, 300));
    let r = target_rectangle(PlacementPolicy::SimpleNonant, 1000, 800);
    assert_eq!(corners(&r), (666, 533, 1000, 800));
    assert_eq!((r.width(), r.height()), (334, 267));
}

#[test]
fn target_rectangle_of_tiny_pictures_is_empty() {
    for side in 0..4u32 {
        let r = target_rectangle(PlacementPolicy::PaddedNonant, side, side);
        assert!(r.is_empty(), "side {side}");
    }
    let r = target_rectangle(PlacementPolicy::PaddedNonant, 4, 4);
    assert_eq!(corners(&r), (2, 2, 3, 3));
    assert!(!r.is_empty());
    let r = target_rectangle(PlacementPolicy::SimpleNonant, 0, 0);
    assert!(r.is_empty());
    let r = target_rectangle(PlacementPolicy::SimpleNonant, 1, 1);
    assert_eq!(corners(&r), (0, 0, 1, 1));
}

#[test]
fn target_rectangle_does_not_overflow_on_the_largest_picture() {
    let r = target_rectangle(PlacementPolicy::PaddedNonant, u32::MAX, u32::MAX);
    assert_eq!(r.left(), 3_006_477_106);
    assert_eq!(r.right(), 4_151_801_718);
    assert_eq!(r.top(), r.left());
    assert_eq!(r.bottom(), r.right());
    let r = target_rectangle(PlacementPolicy::SimpleNonant, u32::MAX, u32::MAX);
    assert_eq!(corners(&r), (2_863_311_530, 2_863_311_530, u32::MAX, u32::MAX));
}

#[test]
fn target_rectangle_lies_on_the_picture() {
    for policy in [PlacementPolicy::PaddedNonant, PlacementPolicy::SimpleNonant] {
        for width in [0u32, 1, 2, 3, 7, 29, 30, 31, 299, 500, 12_345] {
            for height in [0u32, 1, 5, 30, 77, 500, 54_321] {
                let r = target_rectangle(policy, width, height);
                assert!(r.left() <= r.right() && r.right() <= width);
                assert!(r.top() <= r.bottom() && r.bottom() <= height);
            }
        }
    }
}

#[test]
fn rectangle_new_wants_ordered_corners() {
    let r = Rectangle::new(1, 2, 3, 5).unwrap();
    assert_eq!(corners(&r), (1, 2, 3, 5));
    assert_eq!((r.width(), r.height()), (2, 3));
    assert!(Rectangle::new(4, 2, 3, 5).is_none());
    assert!(Rectangle::new(1, 6, 3, 5).is_none());
    let point = Rectangle::new(7, 7, 7, 7).unwrap();
    assert!(point.is_empty());
    let line = Rectangle::new(0, 0, 10, 0).unwrap();
    assert!(line.is_empty());
    assert_eq!(line.width(), 10);
}

#[test]
fn pixel_budget_is_exact_at_its_edge() {
    assert_eq!(MAX_PIXELS, 134_217_727);
    assert!(fits_pixel_budget(0, u32::MAX));
    assert!(fits_pixel_budget(500, 500));
    assert!(fits_pixel_budget(134_217_727, 1));
    assert!(!fits_pixel_budget(134_217_728, 1));
    assert!(fits_pixel_budget(268_435, 500));
    assert!(!fits_pixel_budget(268_436, 500));
    assert!(!fits_pixel_budget(u32::MAX, u32::MAX));
}

#[test]
fn scaling_budget_counts_the_rows_of_the_scaled_picture() {
    // a flat picture keeps few rows, however wide it is
    assert!(fits_scaling_budget(2_000_000, 1, 80, 80));
    assert!(fits_scaling_budget(268_436, 1, 500, 500));
    assert!(fits_scaling_budget(300_000, 100, 500, 500));
    assert!(fits_scaling_budget(134_217_727, 1, 1, 1));
    assert!(!fits_scaling_budget(134_217_728, 1, 1, 1));
    // 67,108,864 columns and two rows are one pixel too many
    assert!(fits_scaling_budget(67_108_863, 1_000_000, 80, 80));
    assert!(!fits_scaling_budget(67_108_864, 1_000_000, 80, 80));
    // a tall picture takes every row of the bounds
    assert!(fits_scaling_budget(1, 1_000_000, 500, 500));
    assert!(fits_scaling_budget(268_435, 300_000, 500, 500));
    assert!(!fits_scaling_budget(268_436, 300_000, 500, 500));
    // the scaled picture itself may be too large
    assert!(fits_scaling_budget(2, 2, 11_585, 11_585));
    assert!(!fits_scaling_budget(2, 2, 11_586, 11_586));
    assert!(!fits_scaling_budget(1, 1, u32::MAX, u32::MAX));
    // nothing to divide by
    assert!(fits_scaling_budget(0, 0, 500, 500));
}
