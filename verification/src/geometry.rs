//! Page-size presets, margins and the vertical coordinate convention.
//!
//! Every length in this crate is an integer number of hundredths of a
//! millimeter, so 21590 is 215.9 mm. Content is placed top-down: a fresh
//! page starts at `height - margin` and the current y-position decreases
//! as content is laid out; nothing may be placed below `margin`.

use vstd::prelude::*;

verus! {

/// Width of a US letter page, hundredths of a millimeter (215.9 mm).
pub const LETTER_WIDTH: i64 = 21590;

/// Height of a US letter page, hundredths of a millimeter (279.4 mm).
pub const LETTER_HEIGHT: i64 = 27940;

/// Width of an A4 page, hundredths of a millimeter (210.0 mm).
pub const A4_WIDTH: i64 = 21000;

/// Height of an A4 page, hundredths of a millimeter (297.0 mm).
pub const A4_HEIGHT: i64 = 29700;

/// Margin kept free on every side of a page (20.0 mm).
pub const MARGIN: i64 = 2000;

/// The fixed vertical unit one line of text consumes (5.0 mm).
pub const LINE_HEIGHT: i64 = 500;

/// Concrete page dimensions for one document run, fixed once a document
/// starts. All fields are in hundredths of a millimeter.
#[derive(Clone, Copy, Debug, PartialEq, Eq, Structural)]
pub struct PageGeometry {
    pub width: i64,
    pub height: i64,
    pub margin: i64,
}

impl PageGeometry {
    /// A geometry is usable when both page dimensions leave room between
    /// the margins.
    pub open spec fn wf(self) -> bool {
        0 < self.margin
        && 2 * self.margin < self.width
        && 2 * self.margin < self.height
    }

    /// The y-position at which content on a fresh page starts.
    pub open spec fn spec_content_top(self) -> int {
        self.height - self.margin
    }

    /// The y-position at which content on a fresh page starts.
    pub fn content_top(&self) -> (y: i64)
        requires
            self.wf(),
        ensures
            y == self.spec_content_top(),
    {
        self.height - self.margin
    }
}

/// The geometry of a US letter page with the fixed margin.
pub open spec fn spec_letter() -> PageGeometry {
    PageGeometry { width: LETTER_WIDTH, height: LETTER_HEIGHT, margin: MARGIN }
}

/// The geometry of an A4 page with the fixed margin.
pub open spec fn spec_a4() -> PageGeometry {
    PageGeometry { width: A4_WIDTH, height: A4_HEIGHT, margin: MARGIN }
}

/// What `resolve` returns for a given selector: `"a4"` yields the A4
/// preset and every other selector falls back to US letter.
pub open spec fn spec_resolve(selector: Seq<char>) -> PageGeometry {
    if selector == "a4"@ {
        spec_a4()
    } else {
        spec_letter()
    }
}

/// Resolves a page-size selector to concrete page dimensions. The function
/// is total: an unrecognized selector silently falls back to US letter.
pub fn resolve(selector: &str) -> (g: PageGeometry)
    ensures
        g == spec_resolve(selector@),
        g.wf(),
{
    if selector.to_owned() == String::from_str("a4") {
        PageGeometry { width: A4_WIDTH, height: A4_HEIGHT, margin: MARGIN }
    } else {
        PageGeometry { width: LETTER_WIDTH, height: LETTER_HEIGHT, margin: MARGIN }
    }
}

} // verus!
