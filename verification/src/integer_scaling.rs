use vstd::prelude::*;

verus! {

/// Integer scaling factors for the horizontal and vertical axes.
pub struct Ratios {
    pub x: u32,
    pub y: u32,
}

/// A width and a height in pixels.
#[derive(Clone, Copy)]
pub struct Size {
    pub width: u32,
    pub height: u32,
}

impl Size {
    pub fn new(width: u32, height: u32) -> (size: Size)
        ensures
            size.width == width,
            size.height == height,
    {
        Size { width, height }
    }
}

/// The axis that limits an integer upscale with square pixels: the vertical one
/// when the area is relatively wider than the image.
pub open spec fn height_limits(area_width: int, area_height: int, image_width: int, image_height: int) -> bool {
    area_height * image_width < area_width * image_height
}

/// The common integer scaling ratio: how many times the image fits along the
/// limiting axis, and at least one.
pub open spec fn spec_ratio(area_width: int, area_height: int, image_width: int, image_height: int) -> int {
    let q = if height_limits(area_width, area_height, image_width, image_height) {
        area_height / image_height
    } else {
        area_width / image_width
    };
    if q < 1 { 1 } else { q }
}

/// Whether the dimension of the image that `calculate_ratio` divides by is
/// not zero: the height when the height limits, else the width.
pub open spec fn divisor_nonzero(area_width: int, area_height: int, image_width: int, image_height: int) -> bool {
    if height_limits(area_width, area_height, image_width, image_height) {
        image_height > 0
    } else {
        image_width > 0
    }
}

/// Calculates an integer scaling ratio common for X/Y axes (square pixels).
pub fn calculate_ratio(area_width: u32, area_height: u32, image_width: u32, image_height: u32) -> (ratio: u32)
    requires
        divisor_nonzero(area_width as int, area_height as int, image_width as int, image_height as int),
        area_height * image_width <= u32::MAX,
        area_width * image_height <= u32::MAX,
    ensures
        ratio == spec_ratio(area_width as int, area_height as int, image_width as int, image_height as int),
{
    let area_size: u32;
    let image_size: u32;
    if area_height * image_width < area_width * image_height {
        area_size = area_height;
        image_size = image_height;
    } else {
        area_size = area_width;
        image_size = image_width;
    }
    let mut ratio = area_size / image_size;
    if ratio < 1 {
        ratio = 1;
    }
    ratio
}

/// When the area holds the image at all, the image scaled by the common ratio
/// still fits in the area, and one step more would not fit.
pub proof fn lemma_scaled_image_fits(area_width: int, area_height: int, image_width: int, image_height: int)
    requires
        image_width > 0,
        image_height > 0,
        area_width >= image_width,
        area_height >= image_height,
    ensures
        spec_ratio(area_width, area_height, image_width, image_height) * image_width <= area_width,
        spec_ratio(area_width, area_height, image_width, image_height) * image_height <= area_height,
        (spec_ratio(area_width, area_height, image_width, image_height) + 1) * image_width > area_width
            || (spec_ratio(area_width, area_height, image_width, image_height) + 1) * image_height > area_height,
{
    let r = spec_ratio(area_width, area_height, image_width, image_height);
    if height_limits(area_width, area_height, image_width, image_height) {
        let q = area_height / image_height;
        assert(q >= 1) by (nonlinear_arith)
            requires area_height >= image_height, image_height > 0, q == area_height / image_height;
        assert(r == q);
        assert(q * image_height <= area_height && (q + 1) * image_height > area_height) by (nonlinear_arith)
            requires image_height > 0, q == area_height / image_height;
        assert(q * image_width <= area_width) by (nonlinear_arith)
            requires
                image_height > 0,
                image_width > 0,
                q * image_height <= area_height,
                area_height * image_width < area_width * image_height,
        {
            assert(q * image_height * image_width <= area_height * image_width);
            assert(q * image_width * image_height < area_width * image_height);
        }
    } else {
        let q = area_width / image_width;
        assert(q >= 1) by (nonlinear_arith)
            requires area_width >= image_width, image_width > 0, q == area_width / image_width;
        assert(r == q);
        assert(q * image_width <= area_width && (q + 1) * image_width > area_width) by (nonlinear_arith)
            requires image_width > 0, q == area_width / image_width;
        assert(q * image_height <= area_height) by (nonlinear_arith)
            requires
                image_height > 0,
                image_width > 0,
                q * image_width <= area_width,
                area_height * image_width >= area_width * image_height,
        {
            assert(q * image_width * image_height <= area_width * image_height);
            assert(q * image_height * image_width <= area_height * image_width);
        }
    }
}

} // verus!
