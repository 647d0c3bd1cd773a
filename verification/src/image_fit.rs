//! Aspect-ratio-preserving scaling of a raster image into a bounding box.
//!
//! An image of `img_w` by `img_h` pixels is fitted into a box of
//! `box_w` by `box_h` hundredths of a millimeter: whichever of the two
//! aspect ratios is wider decides which box side the image fills, and
//! the other rendered side follows from the pixel aspect ratio, rounded
//! down to whole hundredths of a millimeter.

use vstd::prelude::*;

verus! {

/// Width of the photo bounding box in an entry (40.0 mm).
pub const PHOTO_WIDTH: i64 = 4000;

/// Height of the photo bounding box in an entry (50.0 mm).
pub const PHOTO_HEIGHT: i64 = 5000;

/// Horizontal gap between a photo box and the text beside it (5.0 mm).
pub const PHOTO_TEXT_GAP: i64 = 500;

/// The rendered width when an image of `img_w` by `img_h` pixels is
/// fitted into a `box_w` by `box_h` box. The image is wider than the box
/// exactly when `img_w * box_h > img_h * box_w`; it then fills the box's
/// width, otherwise its rendered width follows from the box's height.
pub open spec fn spec_fit_width(img_w: int, img_h: int, box_w: int, box_h: int) -> int {
    if img_w * box_h > img_h * box_w {
        box_w
    } else {
        (box_h * img_w) / img_h
    }
}

/// The rendered height matching [`spec_fit_width`]: the box's height for
/// a tall image, and the width-constrained height otherwise.
pub open spec fn spec_fit_height(img_w: int, img_h: int, box_w: int, box_h: int) -> int {
    if img_w * box_h > img_h * box_w {
        (box_w * img_h) / img_w
    } else {
        box_h
    }
}

/// Fits an image of `img_w` by `img_h` pixels into a box of `box_w` by
/// `box_h` hundredths of a millimeter, preserving the pixel aspect
/// ratio. The result never exceeds the box on either side.
pub fn fit_image(img_w: u32, img_h: u32, box_w: i64, box_h: i64) -> (r: (i64, i64))
    requires
        img_w > 0,
        img_h > 0,
        0 < box_w <= 1_000_000,
        0 < box_h <= 1_000_000,
    ensures
        r.0 == spec_fit_width(img_w as int, img_h as int, box_w as int, box_h as int),
        r.1 == spec_fit_height(img_w as int, img_h as int, box_w as int, box_h as int),
        0 <= r.0 <= box_w,
        0 <= r.1 <= box_h,
{
    let iw = img_w as u64;
    let ih = img_h as u64;
    let bw = box_w as u64;
    let bh = box_h as u64;
    proof {
        assert(iw * bh <= 0xffff_ffff * 1_000_000 && ih * bw <= 0xffff_ffff * 1_000_000
            && bw * ih <= 0xffff_ffff * 1_000_000 && bh * iw <= 0xffff_ffff * 1_000_000)
            by (nonlinear_arith)
            requires
                0 < iw <= 0xffff_ffff,
                0 < ih <= 0xffff_ffff,
                0 < bw <= 1_000_000,
                0 < bh <= 1_000_000,
        ;
    }
    if iw * bh > ih * bw {
        let h = (bw * ih) / iw;
        proof {
            assert((bw * ih) as int / (iw as int) < bh as int) by (nonlinear_arith)
                requires
                    iw * bh > ih * bw,
                    iw > 0,
                    ih > 0,
                    bw > 0,
                    bh > 0,
            ;
            assert((bw * ih) as int / (iw as int) >= 0) by (nonlinear_arith)
                requires
                    iw > 0,
                    ih > 0,
                    bw > 0,
            ;
        }
        (box_w, h as i64)
    } else {
        let w = (bh * iw) / ih;
        proof {
            assert((bh * iw) as int / (ih as int) <= bw as int) by (nonlinear_arith)
                requires
                    iw * bh <= ih * bw,
                    iw > 0,
                    ih > 0,
                    bw > 0,
                    bh > 0,
            ;
            assert((bh * iw) as int / (ih as int) >= 0) by (nonlinear_arith)
                requires
                    ih > 0,
                    iw > 0,
                    bh > 0,
            ;
        }
        (w as i64, box_h)
    }
}

} // verus!
