//! How a frame is brought onto the canvas: kept, scaled, or letterboxed over
//! a blurred copy of itself.

use vstd::prelude::*;

verus! {

/// By how much the background copy is scaled down before it is blurred.
pub const DOWNSCALE_FACTOR: u32 = 3;

/// The rectangle that is cut out of the frame for the background, and which
/// side of the foreground is fixed to the canvas.
#[derive(Clone, Copy, Debug, PartialEq, Eq, Structural)]
pub struct Letterbox {
    /// The foreground takes the canvas's width and its height follows; where
    /// this is false it takes the canvas's height and its width follows.
    pub fix_width: bool,
    pub crop_width: u32,
    pub crop_height: u32,
    pub crop_x: u32,
    pub crop_y: u32,
}

/// How a frame is brought onto the canvas.
#[derive(Clone, Copy, Debug, PartialEq, Eq, Structural)]
pub enum Fit {
    /// The frame has the canvas's size already.
    Keep,
    /// The frame has the canvas's proportions and is scaled to its size.
    Scale,
    /// The frame is scaled to fit inside the canvas and laid over a cropped,
    /// blurred copy of itself that fills the canvas.
    Letterbox(Letterbox),
}

/// Whether a `width` by `height` frame has exactly the proportions of the
/// canvas. A frame or canvas without height has no proportions.
pub open spec fn same_ratio(width: u32, height: u32, canvas_width: u32, canvas_height: u32) -> bool {
    height != 0 && canvas_height != 0 && width * canvas_height == height * canvas_width
}

/// Whether a `width` by `height` frame is proportionally wider than the
/// canvas.
pub open spec fn wider(width: u32, height: u32, canvas_width: u32, canvas_height: u32) -> bool {
    width * canvas_height > height * canvas_width
}

/// The smaller of two numbers.
pub open spec fn min_of(a: int, b: int) -> int {
    if a <= b {
        a
    } else {
        b
    }
}

/// The width of the largest centred rectangle with the canvas's proportions
/// inside the frame.
pub open spec fn crop_width(width: u32, height: u32, canvas_width: u32, canvas_height: u32) -> int {
    min_of(width as int, (height * canvas_width) / (canvas_height as int))
}

/// The height of the largest centred rectangle with the canvas's proportions
/// inside the frame.
pub open spec fn crop_height(width: u32, height: u32, canvas_width: u32, canvas_height: u32) -> int {
    min_of(height as int, (width * canvas_height) / (canvas_width as int))
}

/// The letterbox of a frame on a canvas.
pub open spec fn letterbox_for(
    width: u32,
    height: u32,
    canvas_width: u32,
    canvas_height: u32,
) -> Letterbox {
    let cw = crop_width(width, height, canvas_width, canvas_height);
    let ch = crop_height(width, height, canvas_width, canvas_height);
    Letterbox {
        fix_width: wider(width, height, canvas_width, canvas_height),
        crop_width: cw as u32,
        crop_height: ch as u32,
        crop_x: ((width - cw) / 2) as u32,
        crop_y: ((height - ch) / 2) as u32,
    }
}

/// How a `width` by `height` frame is brought onto the canvas: kept where it
/// has the canvas's size, scaled where it has its proportions, letterboxed
/// otherwise.
pub open spec fn fit_for(width: u32, height: u32, canvas_width: u32, canvas_height: u32) -> Fit {
    if same_ratio(width, height, canvas_width, canvas_height) {
        if width == canvas_width && height == canvas_height {
            Fit::Keep
        } else {
            Fit::Scale
        }
    } else {
        Fit::Letterbox(letterbox_for(width, height, canvas_width, canvas_height))
    }
}

/// The product of two 32-bit numbers fits in 64 bits.
pub proof fn lemma_product_fits(a: u32, b: u32)
    ensures
        0 <= a * b <= u64::MAX,
{
    assert(0 <= a * b <= 0xFFFF_FFFF * 0xFFFF_FFFF) by (nonlinear_arith)
        requires
            0 <= a <= 0xFFFF_FFFF,
            0 <= b <= 0xFFFF_FFFF,
    ;
}

/// Decides how a `width` by `height` frame is brought onto a canvas that has
/// both a width and a height.
pub fn plan_fit(width: u32, height: u32, canvas_width: u32, canvas_height: u32) -> (fit: Fit)
    requires
        canvas_width != 0,
        canvas_height != 0,
    ensures
        fit == fit_for(width, height, canvas_width, canvas_height),
{
    proof {
        lemma_product_fits(width, canvas_height);
        lemma_product_fits(height, canvas_width);
    }
    let ours: u64 = width as u64 * canvas_height as u64;
    let theirs: u64 = height as u64 * canvas_width as u64;
    if height != 0 && ours == theirs {
        if width == canvas_width && height == canvas_height {
            Fit::Keep
        } else {
            Fit::Scale
        }
    } else {
        let across: u64 = theirs / canvas_height as u64;
        let down: u64 = ours / canvas_width as u64;
        let crop_width: u32 = if width as u64 <= across {
            width
        } else {
            across as u32
        };
        let crop_height: u32 = if height as u64 <= down {
            height
        } else {
            down as u32
        };
        Fit::Letterbox(
            Letterbox {
                fix_width: ours > theirs,
                crop_width,
                crop_height,
                crop_x: (width - crop_width) / 2,
                crop_y: (height - crop_height) / 2,
            },
        )
    }
}

} // verus!
