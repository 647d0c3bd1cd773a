//! Rendering one group record into positioned content.
//!
//! An entry is the full block for one record: a bold name heading,
//! optional address and contact lines, one line per member, and, when
//! photos are enabled, the photo fitted into its fixed box at the top
//! left of the entry. Positions are absolute; the caller passes the
//! entry's left edge and top baseline. A missing or undecodable photo
//! produces an explicit skip, never an error, and never changes the
//! text of the entry.

use vstd::prelude::*;
use crate::content::{
    HEADING_SIZE_PT, ImageItem, ImageModel, PhotoModel, PhotoOutcome, PhotoSource, SkipReason,
    TEXT_SIZE_PT, TextItem, TextModel, text_models,
};
use crate::estimate::{MAX_MEMBERS, spec_entry_height};
use crate::geometry::LINE_HEIGHT;
use crate::image_fit::{PHOTO_HEIGHT, PHOTO_TEXT_GAP, PHOTO_WIDTH, fit_image, spec_fit_height, spec_fit_width};
use crate::models::{Family, FamilyWithMembers, Member, PdfOptions};

verus! {

/// Vertical drop from the name heading to the first detail line
/// (one and a half line-heights).
pub const NAME_DROP: i64 = 750;

/// Extra vertical gap before the member lines (half a line-height).
pub const HALF_LINE: i64 = 250;

/// Horizontal indent of member lines under the entry's text column
/// (5.0 mm).
pub const MEMBER_INDENT: i64 = 500;

/// The display line for one member: first and last name, with the role
/// in parentheses when present.
pub open spec fn spec_member_line(m: Member) -> Seq<char> {
    m.first_name@ + " "@ + m.last_name@ + if m.role is Some {
        " ("@ + m.role->0@ + ")"@
    } else {
        Seq::<char>::empty()
    }
}

/// Whether the record has any of city, state and zip, and therefore a
/// composite line under its address.
pub open spec fn spec_has_csz(f: Family) -> bool {
    f.city is Some || f.state is Some || f.zip is Some
}

/// The composite city/state/zip line: city and state joined by a comma,
/// the zip appended with a space, absent parts left out.
pub open spec fn spec_csz_line(f: Family) -> Seq<char> {
    let city_state = if f.city is Some && f.state is Some {
        f.city->0@ + ", "@ + f.state->0@
    } else if f.city is Some {
        f.city->0@
    } else if f.state is Some {
        f.state->0@
    } else {
        Seq::<char>::empty()
    };
    if (f.city is Some || f.state is Some) && f.zip is Some {
        city_state + " "@ + f.zip->0@
    } else if f.zip is Some {
        f.zip->0@
    } else {
        city_state
    }
}

/// The detail lines of an entry, in render order: mailing name, street
/// address with its composite city/state/zip line, phone, email — each
/// only when present and enabled by the options.
pub open spec fn spec_detail_texts(f: Family, o: PdfOptions) -> Seq<Seq<char>> {
    (if o.include_address && f.mailing_name is Some {
        seq![f.mailing_name->0@]
    } else {
        Seq::<Seq<char>>::empty()
    }) + (if o.include_address && f.address is Some {
        seq![f.address->0@] + (if spec_has_csz(f) {
            seq![spec_csz_line(f)]
        } else {
            Seq::<Seq<char>>::empty()
        })
    } else {
        Seq::<Seq<char>>::empty()
    }) + (if o.include_contact_info && f.phone is Some {
        seq![f.phone->0@]
    } else {
        Seq::<Seq<char>>::empty()
    }) + (if o.include_contact_info && f.email is Some {
        seq![f.email->0@]
    } else {
        Seq::<Seq<char>>::empty()
    })
}

/// The left edge of an entry's text: shifted past the photo box when
/// photos are enabled, whether or not this record's photo is placed.
pub open spec fn spec_text_x(o: PdfOptions, x: int) -> int {
    if o.include_photos {
        x + PHOTO_WIDTH + PHOTO_TEXT_GAP
    } else {
        x
    }
}

/// All text lines of one entry at left edge `x` and top baseline `y`,
/// by position in render order: line 0 is the name heading, lines 1 to
/// `d` are the detail lines one line-height apart, and the remaining
/// lines are the indented member lines after an extra half-line gap.
pub open spec fn spec_entry_texts(f: FamilyWithMembers, o: PdfOptions, x: int, y: int) -> Seq<
    TextModel,
> {
    let tx = spec_text_x(o, x);
    let details = spec_detail_texts(f.family, o);
    let d = details.len() as int;
    Seq::new(
        (1 + details.len() + f.members@.len()) as nat,
        |k: int|
            if k == 0 {
                TextModel {
                    x: tx,
                    y: y,
                    size_pt: HEADING_SIZE_PT as int,
                    bold: true,
                    text: f.family.name@,
                }
            } else if k <= d {
                TextModel {
                    x: tx,
                    y: y - NAME_DROP - (k - 1) * LINE_HEIGHT,
                    size_pt: TEXT_SIZE_PT as int,
                    bold: false,
                    text: details[k - 1],
                }
            } else {
                TextModel {
                    x: tx + MEMBER_INDENT,
                    y: y - NAME_DROP - d * LINE_HEIGHT - HALF_LINE - (k - 1 - d) * LINE_HEIGHT,
                    size_pt: TEXT_SIZE_PT as int,
                    bold: false,
                    text: spec_member_line(f.members@[k - 1 - d]),
                }
            },
    )
}

/// The vertical extent one rendered entry consumes from its top
/// baseline: the text lines, floored by the photo box when photos are
/// enabled.
pub open spec fn spec_rendered_height(f: FamilyWithMembers, o: PdfOptions) -> int {
    let text = NAME_DROP + spec_detail_texts(f.family, o).len() * LINE_HEIGHT + HALF_LINE
        + f.members@.len() * LINE_HEIGHT;
    if o.include_photos && text < PHOTO_HEIGHT {
        PHOTO_HEIGHT as int
    } else {
        text
    }
}

/// The photo part of an entry at left edge `x` and top baseline `y`:
/// the supplied image fitted into the photo box and anchored at the
/// entry's top left, or an explicit skip.
pub open spec fn spec_photo_outcome(
    o: PdfOptions,
    photo: Option<PhotoSource>,
    x: int,
    y: int,
) -> PhotoModel {
    if !o.include_photos {
        PhotoModel::Skipped(SkipReason::PhotosDisabled)
    } else if photo is None {
        PhotoModel::Skipped(SkipReason::ImageUnavailable)
    } else if photo->0.width_px == 0 || photo->0.height_px == 0 {
        PhotoModel::Skipped(SkipReason::EmptyImage)
    } else {
        let w = spec_fit_width(
            photo->0.width_px as int,
            photo->0.height_px as int,
            PHOTO_WIDTH as int,
            PHOTO_HEIGHT as int,
        );
        let h = spec_fit_height(
            photo->0.width_px as int,
            photo->0.height_px as int,
            PHOTO_WIDTH as int,
            PHOTO_HEIGHT as int,
        );
        PhotoModel::Placed(
            ImageModel { x: x, y: y - h, width: w, height: h, source: photo->0.path@ },
        )
    }
}

/// The computed content of one entry: its text lines, its photo
/// outcome, and the vertical extent it consumes.
#[derive(Clone, Debug)]
pub struct EntryContent {
    pub texts: Vec<TextItem>,
    pub photo: PhotoOutcome,
    pub height: i64,
}

/// Builds the display line for one member.
fn member_display_line(member: &Member) -> (line: String)
    ensures
        line@ == spec_member_line(*member),
{
    let mut line = member.first_name.clone();
    line.append(" ");
    line.append(member.last_name.as_str());
    match &member.role {
        Some(role) => {
            line.append(" (");
            line.append(role.as_str());
            line.append(")");
        },
        None => {},
    }
    proof {
        assert(line@ =~= spec_member_line(*member));
    }
    line
}

/// Builds the composite city/state/zip line.
fn csz_line(family: &Family) -> (line: String)
    ensures
        line@ == spec_csz_line(*family),
{
    let mut line = String::new();
    match (&family.city, &family.state) {
        (Some(city), Some(state)) => {
            line.append(city.as_str());
            line.append(", ");
            line.append(state.as_str());
        },
        (Some(city), None) => {
            line.append(city.as_str());
        },
        (None, Some(state)) => {
            line.append(state.as_str());
        },
        (None, None) => {},
    }
    match &family.zip {
        Some(zip) => {
            if family.city.is_some() || family.state.is_some() {
                line.append(" ");
            }
            line.append(zip.as_str());
        },
        None => {},
    }
    proof {
        assert(line@ =~= spec_csz_line(*family));
    }
    line
}

/// The detail lines of an entry, in render order.
fn detail_lines(family: &Family, options: &PdfOptions) -> (lines: Vec<String>)
    ensures
        lines@.map_values(|s: String| s@) == spec_detail_texts(*family, *options),
        lines@.len() <= 5,
{
    let mut lines: Vec<String> = Vec::new();
    if options.include_address {
        match &family.mailing_name {
            Some(mailing_name) => { lines.push(mailing_name.clone()); },
            None => {},
        }
        match &family.address {
            Some(address) => {
                lines.push(address.clone());
                if family.city.is_some() || family.state.is_some() || family.zip.is_some() {
                    lines.push(csz_line(family));
                }
            },
            None => {},
        }
    }
    if options.include_contact_info {
        match &family.phone {
            Some(phone) => { lines.push(phone.clone()); },
            None => {},
        }
        match &family.email {
            Some(email) => { lines.push(email.clone()); },
            None => {},
        }
    }
    proof {
        assert(lines@.map_values(|s: String| s@) =~= spec_detail_texts(*family, *options));
    }
    lines
}

/// Renders one record into positioned content, with the entry's left
/// edge at `x` and its top baseline at `y`. The text is complete for
/// every photo input; a record without a usable photo yields an
/// explicit skip and nothing else changes.
pub fn render_family_entry(
    family: &FamilyWithMembers,
    options: &PdfOptions,
    photo: &Option<PhotoSource>,
    x: i64,
    y: i64,
) -> (entry: EntryContent)
    requires
        family.members.len() <= MAX_MEMBERS,
        0 <= x <= 1_000_000,
        -3_000_000_000i64 <= y <= 3_000_000_000i64,
    ensures
        text_models(entry.texts@) == spec_entry_texts(*family, *options, x as int, y as int),
        entry.photo@ == spec_photo_outcome(*options, *photo, x as int, y as int),
        entry.height == spec_rendered_height(*family, *options),
{
    let text_x = if options.include_photos {
        x + PHOTO_WIDTH + PHOTO_TEXT_GAP
    } else {
        x
    };

    let ghost whole = spec_entry_texts(*family, *options, x as int, y as int);

    let mut texts: Vec<TextItem> = Vec::new();
    texts.push(
        TextItem {
            x: text_x,
            y,
            size_pt: HEADING_SIZE_PT,
            bold: true,
            text: family.family.name.clone(),
        },
    );

    let details = detail_lines(&family.family, options);
    let ghost detail_models = spec_detail_texts(family.family, *options);
    let d = details.len();
    let mut i: usize = 0;
    while i < d
        invariant
            whole == spec_entry_texts(*family, *options, x as int, y as int),
            text_x == spec_text_x(*options, x as int),
            d == details.len() <= 5,
            i <= d,
            0 <= text_x <= 1_005_000,
            -3_000_000_000i64 <= y <= 3_000_000_000i64,
            details@.map_values(|s: String| s@) == detail_models,
            detail_models == spec_detail_texts(family.family, *options),
            texts@.len() == 1 + i,
            forall|k: int| 0 <= k < texts@.len() ==> #[trigger] texts@[k]@ == whole[k],
        decreases d - i,
    {
        proof {
            assert(detail_models[i as int] == details@.map_values(|s: String| s@)[i as int]);
        }
        texts.push(
            TextItem {
                x: text_x,
                y: y - NAME_DROP - (i as i64) * LINE_HEIGHT,
                size_pt: TEXT_SIZE_PT,
                bold: false,
                text: details[i].clone(),
            },
        );
        i = i + 1;
    }

    let member_top: i64 = y - NAME_DROP - (d as i64) * LINE_HEIGHT - HALF_LINE;
    let m = family.members.len();
    let mut j: usize = 0;
    while j < m
        invariant
            whole == spec_entry_texts(*family, *options, x as int, y as int),
            text_x == spec_text_x(*options, x as int),
            m == family.members.len() <= MAX_MEMBERS,
            j <= m,
            d == detail_models.len() <= 5,
            detail_models == spec_detail_texts(family.family, *options),
            0 <= text_x <= 1_005_000,
            -3_000_000_000i64 <= y <= 3_000_000_000i64,
            member_top == y - NAME_DROP - (d as int) * LINE_HEIGHT - HALF_LINE,
            texts@.len() == 1 + d + j,
            forall|k: int| 0 <= k < texts@.len() ==> #[trigger] texts@[k]@ == whole[k],
        decreases m - j,
    {
        texts.push(
            TextItem {
                x: text_x + MEMBER_INDENT,
                y: member_top - (j as i64) * LINE_HEIGHT,
                size_pt: TEXT_SIZE_PT,
                bold: false,
                text: member_display_line(&family.members[j]),
            },
        );
        j = j + 1;
    }
    proof {
        assert(text_models(texts@) =~= whole);
    }

    let text_bottom: i64 = member_top - (m as i64) * LINE_HEIGHT;
    let bottom = if options.include_photos && text_bottom > y - PHOTO_HEIGHT {
        y - PHOTO_HEIGHT
    } else {
        text_bottom
    };
    let height = y - bottom;

    let photo_out = if !options.include_photos {
        PhotoOutcome::Skipped(SkipReason::PhotosDisabled)
    } else {
        match photo {
            None => PhotoOutcome::Skipped(SkipReason::ImageUnavailable),
            Some(source) => {
                if source.width_px == 0 || source.height_px == 0 {
                    PhotoOutcome::Skipped(SkipReason::EmptyImage)
                } else {
                    let (w, h) = fit_image(source.width_px, source.height_px, PHOTO_WIDTH, PHOTO_HEIGHT);
                    PhotoOutcome::Placed(
                        ImageItem {
                            x,
                            y: y - h,
                            width: w,
                            height: h,
                            source: source.path.clone(),
                        },
                    )
                }
            },
        }
    };

    EntryContent { texts, photo: photo_out, height }
}

/// Estimation soundness: for every record and options combination, the
/// estimated height is an upper bound on the vertical extent the
/// renderer consumes for the same record and options, so the flow
/// controller is never forced to break a page mid-entry.
pub proof fn lemma_estimate_covers_render(f: FamilyWithMembers, o: PdfOptions)
    ensures
        spec_rendered_height(f, o) <= spec_entry_height(f, o),
{
    assert(spec_detail_texts(f.family, o).len()
        <= crate::estimate::spec_estimated_detail_lines(f.family, o));
}

} // verus!
