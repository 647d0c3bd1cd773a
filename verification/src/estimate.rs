//! Predicting the vertical space of an entry before rendering it.
//!
//! The flow controller must know how tall an entry will be before the
//! entry is rendered, so column and page breaks can be decided up
//! front. The estimate here is an upper bound on the height the
//! renderer actually consumes for the same record and options; the
//! renderer is never forced to break a page mid-entry.

use vstd::prelude::*;
use crate::geometry::LINE_HEIGHT;
use crate::image_fit::PHOTO_HEIGHT;
use crate::models::{Family, FamilyWithMembers, PdfOptions};

verus! {

/// The largest member sequence one record may carry. This is a machine
/// limit: it keeps every height computation comfortably inside `i64`.
pub const MAX_MEMBERS: usize = 1_000_000;

/// The largest value `calculate_entry_height` can return under the
/// `MAX_MEMBERS` limit.
pub const MAX_ENTRY_ESTIMATE: i64 = 500_003_500;

/// How many detail lines the estimator budgets for: one for a mailing
/// name, two for an address (street plus the city/state/zip composite),
/// one per present phone and email.
pub open spec fn spec_estimated_detail_lines(f: Family, o: PdfOptions) -> int {
    (if o.include_address && f.mailing_name is Some { 1int } else { 0int })
    + (if o.include_address && f.address is Some { 2int } else { 0int })
    + (if o.include_contact_info && f.phone is Some { 1int } else { 0int })
    + (if o.include_contact_info && f.email is Some { 1int } else { 0int })
}

/// The estimated height of one entry: two line-heights for the name and
/// the trailing gap, one per budgeted detail line, one per member, and,
/// when photos are enabled, at least the photo box plus one line.
pub open spec fn spec_entry_height(f: FamilyWithMembers, o: PdfOptions) -> int {
    let text = 2 * LINE_HEIGHT
        + spec_estimated_detail_lines(f.family, o) * LINE_HEIGHT
        + f.members@.len() * LINE_HEIGHT;
    if o.include_photos && text < PHOTO_HEIGHT + LINE_HEIGHT {
        PHOTO_HEIGHT + LINE_HEIGHT
    } else {
        text
    }
}

/// Computes the estimated height of one entry without rendering it.
pub fn calculate_entry_height(family: &FamilyWithMembers, options: &PdfOptions) -> (height: i64)
    requires
        family.members.len() <= MAX_MEMBERS,
    ensures
        height == spec_entry_height(*family, *options),
        2 * LINE_HEIGHT <= height <= MAX_ENTRY_ESTIMATE,
{
    let mut height: i64 = LINE_HEIGHT * 2;

    if options.include_address {
        if family.family.mailing_name.is_some() {
            height = height + LINE_HEIGHT;
        }
        if family.family.address.is_some() {
            height = height + LINE_HEIGHT * 2;
        }
    }

    if options.include_contact_info {
        if family.family.phone.is_some() {
            height = height + LINE_HEIGHT;
        }
        if family.family.email.is_some() {
            height = height + LINE_HEIGHT;
        }
    }

    height = height + (family.members.len() as i64) * LINE_HEIGHT;

    if options.include_photos && height < PHOTO_HEIGHT + LINE_HEIGHT {
        height = PHOTO_HEIGHT + LINE_HEIGHT;
    }

    height
}

} // verus!
