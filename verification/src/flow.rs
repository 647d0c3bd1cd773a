//! The flow controller: a small state machine deciding when content
//! moves to a new column or a new page.
//!
//! One controller drives one section (table of contents or body). It
//! owns the per-section cursor — current page index, column index and
//! y-position — and is discarded at the section boundary, so no cursor
//! state can leak from one section into the next. Placement is a
//! two-step protocol: `place` applies the break rules for an entry of a
//! given estimated height, leaving the cursor at the position where the
//! entry goes, and `advance` moves the cursor down by the space the
//! rendered entry and its trailing gap actually consumed.

use vstd::prelude::*;
use crate::geometry::PageGeometry;

verus! {

/// Whether the cursor sits at the top of a fresh page or content has
/// already been placed on it.
#[derive(Clone, Copy, Debug, PartialEq, Eq, Structural)]
pub enum FlowState {
    AtTop,
    MidSection,
}

/// The cursor position of a flow controller, as a mathematical value.
pub struct FlowPos {
    pub page: int,
    pub column: int,
    pub y: int,
}

/// One step of the break rules: where an entry of estimated height `h`
/// goes when the cursor stands at `p`. If the entry would reach below
/// the margin, a two-column layout still in column 0 moves to column 1
/// of the same page; otherwise a new page starts at column 0. In either
/// break case the y-position resets to the top of the content area.
pub open spec fn spec_flow_break(g: PageGeometry, two_columns: bool, p: FlowPos, h: int) -> FlowPos {
    if p.y - h < g.margin {
        if two_columns && p.column == 0 {
            FlowPos { page: p.page, column: 1, y: g.spec_content_top() }
        } else {
            FlowPos { page: p.page + 1, column: 0, y: g.spec_content_top() }
        }
    } else {
        p
    }
}

/// The per-section flow state machine. `page` counts pages of the
/// section from 0; `column` is 0 or 1 and stays 0 in single-column
/// layouts; `y` never exceeds the content top.
pub struct FlowController {
    pub geometry: PageGeometry,
    pub two_columns: bool,
    pub state: FlowState,
    pub page: usize,
    pub column: usize,
    pub y: i64,
}

impl FlowController {
    /// The controller's cursor as a mathematical value.
    pub open spec fn pos(self) -> FlowPos {
        FlowPos { page: self.page as int, column: self.column as int, y: self.y as int }
    }

    /// Internal consistency of a controller.
    pub open spec fn wf(self) -> bool {
        &&& self.geometry.wf()
        &&& self.column <= 1
        &&& (!self.two_columns ==> self.column == 0)
        &&& self.y <= self.geometry.spec_content_top()
    }

    /// An entry of estimated height `h` does not fit above the margin
    /// at the current y-position.
    pub open spec fn spec_break_needed(self, h: int) -> bool {
        self.y - h < self.geometry.margin
    }

    /// Starts a section: a fresh controller at the top of page 0,
    /// column 0.
    pub fn new(geometry: PageGeometry, two_columns: bool) -> (fc: FlowController)
        requires
            geometry.wf(),
        ensures
            fc.geometry == geometry,
            fc.two_columns == two_columns,
            fc.state == FlowState::AtTop,
            fc.pos() == (FlowPos { page: 0, column: 0, y: geometry.spec_content_top() }),
            fc.wf(),
    {
        let y = geometry.content_top();
        FlowController { geometry, two_columns, state: FlowState::AtTop, page: 0, column: 0, y }
    }

    /// Applies the break rules for an entry of estimated height `h`,
    /// leaving the cursor at the position where the entry is placed.
    pub fn place(&mut self, h: i64)
        requires
            old(self).wf(),
            0 <= h <= 4_000_000_000i64,
            old(self).y >= -4_000_000_000i64,
            old(self).page < usize::MAX,
        ensures
            final(self).geometry == old(self).geometry,
            final(self).two_columns == old(self).two_columns,
            final(self).pos() == spec_flow_break(
                old(self).geometry,
                old(self).two_columns,
                old(self).pos(),
                h as int,
            ),
            final(self).state == if old(self).spec_break_needed(h as int)
                && !(old(self).two_columns && old(self).column == 0) {
                FlowState::AtTop
            } else {
                old(self).state
            },
            final(self).wf(),
    {
        if self.y - h < self.geometry.margin {
            if self.two_columns && self.column == 0 {
                self.column = 1;
                self.y = self.geometry.content_top();
            } else {
                self.page = self.page + 1;
                self.column = 0;
                self.y = self.geometry.content_top();
                self.state = FlowState::AtTop;
            }
        }
    }

    /// Moves the cursor down by the space one placed piece of content
    /// consumed (its rendered height plus any trailing gap).
    pub fn advance(&mut self, used: i64)
        requires
            old(self).wf(),
            0 <= used <= 4_000_000_000i64,
            old(self).y >= -4_000_000_000i64,
        ensures
            final(self).geometry == old(self).geometry,
            final(self).two_columns == old(self).two_columns,
            final(self).page == old(self).page,
            final(self).column == old(self).column,
            final(self).y == old(self).y - used,
            final(self).state == FlowState::MidSection,
            final(self).wf(),
    {
        self.y = self.y - used;
        self.state = FlowState::MidSection;
    }
}

} // verus!
