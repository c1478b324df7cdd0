//! Scaling the QR code image into its place on the page.
use vstd::prelude::*;

use crate::builder::BuildError;
use crate::instruction::ImagePlacement;
use crate::page::{EMU_PER_PX, PageDimensions};

verus! {

/// Where an image of `width_px` by `height_px` pixels at 300 dpi goes when
/// it is scaled to `target` high: centred across the page, with one margin
/// above it and one margin between it and the middle of the page. The image
/// keeps its aspect ratio; its rendered width is rounded down to a whole EMU,
/// and nothing is clamped to the page.
pub open spec fn barcode_placement(
    d: PageDimensions,
    target: i64,
    width_px: nat,
    height_px: nat,
) -> ImagePlacement {
    let rendered_width = (width_px * target) as int / height_px as int;
    ImagePlacement {
        translate_x: ((d.width - rendered_width) / 2) as i128,
        translate_y: (d.height - target - 2 * d.margin) as i128,
        scale_num: target as i128,
        scale_den: (height_px * EMU_PER_PX) as i128,
    }
}

/// Scales an image of `width_px` by `height_px` pixels at 300 dpi to be
/// `target` high and places it centred across the top of the page.
pub fn scale_barcode(dims: PageDimensions, target: i64, width_px: usize, height_px: usize) -> (r:
    Result<ImagePlacement, BuildError>)
    requires
        dims.wf(),
        0 < target <= dims.height,
    ensures
        height_px == 0 ==> r == Err::<ImagePlacement, BuildError>(BuildError::DegenerateImage),
        height_px > 0 ==> r == Ok::<ImagePlacement, BuildError>(
            barcode_placement(dims, target, width_px as nat, height_px as nat),
        ),
{
    if height_px == 0 {
        return Err(BuildError::DegenerateImage);
    }
    let w = width_px as i128;
    let h = height_px as i128;
    let t = target as i128;
    assert(0 <= w * t <= 0x1_0000_0000_0000_0000 * 1_000_000_000_000) by (nonlinear_arith)
        requires
            0 <= w < 0x1_0000_0000_0000_0000,
            0 < t <= 1_000_000_000_000,
    ;
    let rendered_width = (w * t) / h;
    assert(0 <= rendered_width <= w * t) by (nonlinear_arith)
        requires
            0 <= w * t,
            h >= 1,
            rendered_width == (w * t) as int / h as int,
    ;
    let spare = dims.width as i128 - rendered_width;
    // Integer division rounds towards zero; the placement rounds down.
    let translate_x = if spare >= 0 {
        spare / 2
    } else {
        0 - (1 - spare) / 2
    };
    assert(translate_x == spare / 2);
    Ok(
        ImagePlacement {
            translate_x,
            translate_y: (dims.height - target - 2 * dims.margin) as i128,
            scale_num: t,
            scale_den: h * (EMU_PER_PX as i128),
        },
    )
}

} // verus!
