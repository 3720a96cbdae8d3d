use blazingwebp::resample::{resize_plan, ResampleError, ResizePlan};
use blazingwebp::resize::Resize;

#[test]
fn longer_side_halves_a_landscape_image() {
    assert_eq!(Resize::LongerSide.compute(800, 1600, 1200, false), (800, 600));
}

#[test]
fn longer_side_of_a_portrait_image_is_its_height() {
    assert_eq!(Resize::LongerSide.compute(800, 1200, 1600, false), (600, 800));
}

#[test]
fn shorter_side_scales_the_longer_side_beyond_the_target() {
    assert_eq!(Resize::ShorterSide.compute(600, 1600, 1200, false), (800, 600));
    assert_eq!(Resize::ShorterSide.compute(600, 1200, 1600, false), (600, 800));
}

#[test]
fn no_resizing_returns_the_input() {
    assert_eq!(Resize::NoResizing.compute(800, 1600, 1200, false), (1600, 1200));
    assert_eq!(Resize::NoResizing.compute(0, 7, 3, true), (7, 3));
    assert_eq!(Resize::NoResizing.compute(u32::MAX, u32::MAX, 1, true), (u32::MAX as u64, 1));
}

#[test]
fn squares_become_squares_of_the_target() {
    for side in [1u32, 2, 799, 800, 801, 65_535, u32::MAX] {
        assert_eq!(Resize::LongerSide.compute(800, side, side, true), (800, 800));
        assert_eq!(Resize::ShorterSide.compute(800, side, side, true), (800, 800));
    }
}

#[test]
fn small_images_are_not_enlarged_unless_allowed() {
    assert_eq!(Resize::LongerSide.compute(800, 640, 480, false), (640, 480));
    assert_eq!(Resize::ShorterSide.compute(800, 640, 480, false), (640, 480));
    assert_eq!(Resize::LongerSide.compute(800, 640, 480, true), (800, 600));
    assert_eq!(Resize::ShorterSide.compute(800, 640, 480, true), (1066, 800));
}

#[test]
fn one_side_at_the_target_is_enough_to_scale() {
    assert_eq!(Resize::LongerSide.compute(800, 800, 10, false), (800, 10));
    assert_eq!(Resize::ShorterSide.compute(800, 800, 10, false), (64_000, 800));
    assert_eq!(Resize::LongerSide.compute(800, 799, 799, false), (799, 799));
}

#[test]
fn the_scaled_side_is_truncated() {
    assert_eq!(Resize::LongerSide.compute(100, 300, 200, false), (100, 66));
    assert_eq!(Resize::LongerSide.compute(10, 3, 7, true), (4, 10));
    assert_eq!(Resize::ShorterSide.compute(10, 3, 7, true), (10, 23));
}

#[test]
fn a_very_elongated_image_loses_its_short_side() {
    assert_eq!(Resize::LongerSide.compute(10, 1, 1000, true), (0, 10));
    assert_eq!(Resize::LongerSide.compute(10, 1000, 1, true), (10, 0));
}

#[test]
fn a_target_of_zero_gives_no_pixels() {
    assert_eq!(Resize::LongerSide.compute(0, 30, 20, true), (0, 0));
    assert_eq!(Resize::ShorterSide.compute(0, 30, 20, false), (0, 0));
}

#[test]
fn the_scaled_side_may_exceed_thirty_two_bits() {
    assert_eq!(
        Resize::ShorterSide.compute(u32::MAX, u32::MAX, 1, true),
        (u32::MAX as u64 * u32::MAX as u64, u32::MAX as u64)
    );
    assert_eq!(Resize::ShorterSide.compute(65_536, 65_536, 1, true), (1 << 32, 65_536));
    assert_eq!(Resize::LongerSide.compute(u32::MAX, u32::MAX, 1, true), (u32::MAX as u64, 1));
}

#[test]
fn applies_tells_when_an_image_is_resampled() {
    assert!(!Resize::NoResizing.applies(800, 1600, 1200, true));
    assert!(Resize::LongerSide.applies(800, 1600, 1200, false));
    assert!(Resize::LongerSide.applies(800, 100, 800, false));
    assert!(!Resize::LongerSide.applies(800, 799, 799, false));
    assert!(Resize::ShorterSide.applies(800, 799, 799, true));
    assert!(Resize::ShorterSide.applies(800, 800, 600, false));
}

#[test]
fn the_plan_keeps_resamples_or_refuses() {
    assert_eq!(resize_plan(Resize::NoResizing, 800, 1600, 1200, true), ResizePlan::Keep);
    assert_eq!(resize_plan(Resize::LongerSide, 800, 640, 480, false), ResizePlan::Keep);
    assert_eq!(resize_plan(Resize::NoResizing, 800, 0, 0, true), ResizePlan::Keep);
    assert_eq!(
        resize_plan(Resize::LongerSide, 800, 1600, 1200, false),
        ResizePlan::Resample { width: 800, height: 600 }
    );
    assert_eq!(
        resize_plan(Resize::LongerSide, 10, 1, 1000, true),
        ResizePlan::Resample { width: 0, height: 10 }
    );
    assert_eq!(
        resize_plan(Resize::LongerSide, 800, 0, 1200, true),
        ResizePlan::Refuse(ResampleError::EmptySource)
    );
    assert_eq!(
        resize_plan(Resize::ShorterSide, 800, 1600, 0, true),
        ResizePlan::Refuse(ResampleError::EmptySource)
    );
    assert_eq!(
        resize_plan(Resize::ShorterSide, 65_536, 65_536, 1, true),
        ResizePlan::Refuse(ResampleError::TooLarge)
    );
    assert_eq!(
        resize_plan(Resize::LongerSide, u32::MAX, u32::MAX, u32::MAX, true),
        ResizePlan::Refuse(ResampleError::TooLarge)
    );
}
