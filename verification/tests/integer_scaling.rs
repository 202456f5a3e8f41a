use nes_bundler::integer_scaling::{calculate_ratio, Size};

#[test]
fn ratio_fits_nes_picture_in_full_hd() {
    // 1920x1080 holds the 256x240 picture four times vertically.
    assert_eq!(calculate_ratio(1920, 1080, 256, 240), 4);
}

#[test]
fn ratio_limited_by_width() {
    // A tall area: the width limits the scale.
    assert_eq!(calculate_ratio(600, 2000, 256, 240), 2);
}

#[test]
fn ratio_never_below_one() {
    assert_eq!(calculate_ratio(100, 100, 256, 240), 1);
}

#[test]
fn ratio_exact_fit() {
    assert_eq!(calculate_ratio(512, 480, 256, 240), 2);
}

#[test]
fn size_keeps_its_dimensions() {
    let size = Size::new(341, 240);
    assert_eq!(size.width, 341);
    assert_eq!(size.height, 240);
}

#[test]
fn ratio_divides_only_by_the_limiting_dimension() {
    // With no height the width decides; with no width the height does.
    assert_eq!(calculate_ratio(100, 100, 10, 0), 10);
    assert_eq!(calculate_ratio(100, 100, 0, 10), 10);
}
