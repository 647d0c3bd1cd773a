//! The section assembler: cover, table of contents and body, in fixed
//! order, each section driving its own flow controller.
//!
//! The assembler turns the ordered record list plus the options
//! snapshot into a fully positioned [`DocumentLayout`]. Every entry is
//! placed whole: an entry that does not fit in the remaining space
//! moves entirely to the next column or page. Sections never share
//! cursor state; each page count below starts at 0 within its own
//! section, and a painter stacks the sections in order.

use vstd::prelude::*;
use crate::content::{
    HEADING_SIZE_PT, PhotoSource, TEXT_SIZE_PT, TextItem, TextModel, TITLE_SIZE_PT, text_models,
};
use crate::entry::{
    EntryContent, render_family_entry, spec_entry_texts, spec_photo_outcome,
    spec_rendered_height, lemma_estimate_covers_render,
};
use crate::estimate::{MAX_MEMBERS, calculate_entry_height, spec_entry_height};
use crate::flow::{FlowController, FlowPos, spec_flow_break};
use crate::geometry::{LINE_HEIGHT, PageGeometry, resolve, spec_resolve};
use crate::models::{FamilyWithMembers, PdfOptions};

verus! {

/// Vertical drop from the cover title to the subtitle (15.0 mm).
pub const COVER_TITLE_DROP: i64 = 1500;

/// Vertical drop from the table-of-contents heading to its first line
/// (three line-heights).
pub const TOC_HEADING_DROP: i64 = 1500;

/// Vertical gap between consecutive body entries (two line-heights).
pub const ENTRY_GAP: i64 = 1000;

/// The cover page: the organization name as a large title and a fixed
/// subtitle.
#[derive(Clone, Debug)]
pub struct CoverPage {
    pub title: TextItem,
    pub subtitle: TextItem,
}

/// One table-of-contents line: the record's display name as a
/// positioned text item, on page `page` of the section.
#[derive(Clone, Debug)]
pub struct TocLine {
    pub page: usize,
    pub item: TextItem,
}

/// The table-of-contents section: its heading on the section's first
/// page, one line per record in input order, and how many pages the
/// section spans.
#[derive(Clone, Debug)]
pub struct TocSection {
    pub heading: TextItem,
    pub lines: Vec<TocLine>,
    pub page_count: usize,
}

/// One body entry at its resolved position: page and column within the
/// body section, the entry's left edge `x` and top baseline `y`, and
/// the rendered content.
#[derive(Clone, Debug)]
pub struct PlacedEntry {
    pub page: usize,
    pub column: usize,
    pub x: i64,
    pub y: i64,
    pub content: EntryContent,
}

/// The body section: every record's entry in input order, and how many
/// pages the section spans.
#[derive(Clone, Debug)]
pub struct BodySection {
    pub entries: Vec<PlacedEntry>,
    pub page_count: usize,
}

/// The finished layout of one document: the geometry every page uses
/// and the three sections in page order.
#[derive(Clone, Debug)]
pub struct DocumentLayout {
    pub geometry: PageGeometry,
    pub cover: Option<CoverPage>,
    pub toc: Option<TocSection>,
    pub body: BodySection,
}

/// Whether the options select the two-column grid layout.
pub open spec fn spec_is_grid(o: PdfOptions) -> bool {
    o.layout@ == "grid"@
}

/// The left edge of a body column: column 0 starts at the margin;
/// column 1 starts past half the inner width plus the middle margin.
pub open spec fn spec_column_x(g: PageGeometry, column: int) -> int {
    g.margin + column * ((g.width - 3 * g.margin) / 2 + g.margin)
}

/// The cursor of the table-of-contents flow before line `i` is placed:
/// the first line starts below the heading, and each line moves the
/// cursor down one line-height from where it was placed.
pub open spec fn spec_toc_pos(g: PageGeometry, i: int) -> FlowPos
    decreases i, 0int,
{
    if i <= 0 {
        FlowPos { page: 0, column: 0, y: g.spec_content_top() - TOC_HEADING_DROP }
    } else {
        let placed = spec_toc_line_pos(g, i - 1);
        FlowPos { page: placed.page, column: 0, y: placed.y - LINE_HEIGHT }
    }
}

/// Where table-of-contents line `i` is placed: the cursor position
/// after the break rules for one line-height, in single-column flow.
pub open spec fn spec_toc_line_pos(g: PageGeometry, i: int) -> FlowPos
    decreases i, 1int,
{
    spec_flow_break(g, false, spec_toc_pos(g, i), LINE_HEIGHT as int)
}

/// The cursor of the body flow before entry `i` is placed: each
/// earlier entry moved the cursor down by its rendered height plus the
/// inter-entry gap from where it was placed.
pub open spec fn spec_body_pos(
    families: Seq<FamilyWithMembers>,
    o: PdfOptions,
    g: PageGeometry,
    i: int,
) -> FlowPos
    decreases i, 0int,
{
    if i <= 0 {
        FlowPos { page: 0, column: 0, y: g.spec_content_top() }
    } else {
        let placed = spec_entry_pos(families, o, g, i - 1);
        FlowPos {
            page: placed.page,
            column: placed.column,
            y: placed.y - spec_rendered_height(families[i - 1], o) - ENTRY_GAP,
        }
    }
}

/// Where body entry `i` is placed: the cursor position after the break
/// rules for the entry's estimated height.
pub open spec fn spec_entry_pos(
    families: Seq<FamilyWithMembers>,
    o: PdfOptions,
    g: PageGeometry,
    i: int,
) -> FlowPos
    decreases i, 1int,
{
    spec_flow_break(g, spec_is_grid(o), spec_body_pos(families, o, g, i), spec_entry_height(families[i], o))
}

/// The left edge of a body column.
fn column_x(g: &PageGeometry, column: usize) -> (x: i64)
    requires
        0 < g.margin,
        3 * g.margin < g.width <= 1_000_000,
        column <= 1,
    ensures
        x == spec_column_x(*g, column as int),
        0 < x < g.width,
{
    let inner = (g.width - 3 * g.margin) as u64;
    let half = (inner / 2) as i64;
    if column == 0 {
        g.margin
    } else {
        proof {
            let q = (g.width - 3 * g.margin) / 2 + g.margin;
            assert((column as int) * q == q) by (nonlinear_arith)
                requires
                    column == 1,
            ;
        }
        g.margin + half + g.margin
    }
}

/// Assembles the whole document: the cover when enabled, one
/// table-of-contents line per record when enabled and any records
/// exist, and one body entry per record, in input order. No record is
/// dropped, duplicated or reordered, and an entry that does not fit in
/// the remaining vertical space moves whole to the next column or
/// page.
pub fn generate_layout(
    families: &Vec<FamilyWithMembers>,
    photos: &Vec<Option<PhotoSource>>,
    options: &PdfOptions,
) -> (doc: DocumentLayout)
    requires
        photos.len() == families.len(),
        families.len() < usize::MAX,
        forall|i: int|
            0 <= i < families.len() ==> (#[trigger] families[i]).members.len() <= MAX_MEMBERS,
    ensures
        doc.geometry == spec_resolve(options.page_size@),
        doc.cover is Some <==> options.include_cover,
        options.include_cover ==> doc.cover->0.title@ == (TextModel {
            x: doc.geometry.margin as int,
            y: doc.geometry.spec_content_top(),
            size_pt: TITLE_SIZE_PT as int,
            bold: true,
            text: options.church_name@,
        }),
        options.include_cover ==> doc.cover->0.subtitle@ == (TextModel {
            x: doc.geometry.margin as int,
            y: doc.geometry.spec_content_top() - COVER_TITLE_DROP,
            size_pt: HEADING_SIZE_PT as int,
            bold: false,
            text: "Photo Directory"@,
        }),
        doc.toc is Some <==> (options.include_toc && families.len() > 0),
        doc.toc is Some ==> doc.toc->0.heading@ == (TextModel {
            x: doc.geometry.margin as int,
            y: doc.geometry.spec_content_top(),
            size_pt: HEADING_SIZE_PT as int,
            bold: true,
            text: "Table of Contents"@,
        }),
        doc.toc is Some ==> doc.toc->0.lines@.len() == families@.len(),
        doc.toc is Some ==> forall|i: int|
            0 <= i < families@.len() ==> {
                let line = #[trigger] doc.toc->0.lines@[i];
                let placed = spec_toc_line_pos(doc.geometry, i);
                line.page == placed.page && line.item@ == (TextModel {
                    x: doc.geometry.margin as int,
                    y: placed.y,
                    size_pt: TEXT_SIZE_PT as int,
                    bold: false,
                    text: families@[i].family.name@,
                })
            },
        doc.toc is Some ==> doc.toc->0.page_count == spec_toc_pos(
            doc.geometry,
            families@.len() as int,
        ).page + 1,
        doc.body.entries@.len() == families@.len(),
        forall|i: int|
            0 <= i < families@.len() ==> {
                let entry = #[trigger] doc.body.entries@[i];
                let placed = spec_entry_pos(families@, *options, doc.geometry, i);
                let x = spec_column_x(doc.geometry, placed.column);
                entry.page == placed.page && entry.column == placed.column && entry.x == x
                    && entry.y == placed.y && text_models(entry.content.texts@)
                    == spec_entry_texts(families@[i], *options, x, placed.y)
                    && entry.content.photo@ == spec_photo_outcome(
                    *options,
                    photos@[i],
                    x,
                    placed.y,
                ) && entry.content.height == spec_rendered_height(families@[i], *options)
            },
        doc.body.page_count == spec_body_pos(
            families@,
            *options,
            doc.geometry,
            families@.len() as int,
        ).page + 1,
{
    let geometry = resolve(options.page_size.as_str());
    let is_grid = options.layout.clone() == String::from_str("grid");

    let cover = if options.include_cover {
        Some(
            CoverPage {
                title: TextItem {
                    x: geometry.margin,
                    y: geometry.content_top(),
                    size_pt: TITLE_SIZE_PT,
                    bold: true,
                    text: options.church_name.clone(),
                },
                subtitle: TextItem {
                    x: geometry.margin,
                    y: geometry.content_top() - COVER_TITLE_DROP,
                    size_pt: HEADING_SIZE_PT,
                    bold: false,
                    text: String::from_str("Photo Directory"),
                },
            },
        )
    } else {
        None
    };

    let n = families.len();

    let toc = if options.include_toc && n > 0 {
        let heading = TextItem {
            x: geometry.margin,
            y: geometry.content_top(),
            size_pt: HEADING_SIZE_PT,
            bold: true,
            text: String::from_str("Table of Contents"),
        };
        let mut fc = FlowController::new(geometry, false);
        fc.advance(TOC_HEADING_DROP);
        let mut lines: Vec<TocLine> = Vec::new();
        let mut i: usize = 0;
        while i < n
            invariant
                geometry == spec_resolve(options.page_size@),
                n == families.len() < usize::MAX,
                i <= n,
                fc.wf(),
                fc.geometry == geometry,
                !fc.two_columns,
                fc.page <= i,
                fc.y >= 0,
                fc.pos() == spec_toc_pos(geometry, i as int),
                lines@.len() == i,
                forall|k: int|
                    0 <= k < i ==> {
                        let line = #[trigger] lines@[k];
                        let placed = spec_toc_line_pos(geometry, k);
                        line.page == placed.page && line.item@ == (TextModel {
                            x: geometry.margin as int,
                            y: placed.y,
                            size_pt: TEXT_SIZE_PT as int,
                            bold: false,
                            text: families@[k].family.name@,
                        })
                    },
            decreases n - i,
        {
            fc.place(LINE_HEIGHT);
            lines.push(
                TocLine {
                    page: fc.page,
                    item: TextItem {
                        x: geometry.margin,
                        y: fc.y,
                        size_pt: TEXT_SIZE_PT,
                        bold: false,
                        text: families[i].family.name.clone(),
                    },
                },
            );
            fc.advance(LINE_HEIGHT);
            i = i + 1;
        }
        let page_count = fc.page + 1;
        Some(TocSection { heading, lines, page_count })
    } else {
        None
    };

    let mut fc = FlowController::new(geometry, is_grid);
    let mut entries: Vec<PlacedEntry> = Vec::new();
    let mut i: usize = 0;
    while i < n
        invariant
            geometry == spec_resolve(options.page_size@),
            n == families.len() < usize::MAX,
            photos.len() == families.len(),
            forall|k: int|
                0 <= k < families.len() ==> (#[trigger] families[k]).members.len() <= MAX_MEMBERS,
            i <= n,
            fc.wf(),
            fc.geometry == geometry,
            fc.two_columns == spec_is_grid(*options),
            fc.page <= i,
            fc.y >= -600_000_000i64,
            fc.pos() == spec_body_pos(families@, *options, geometry, i as int),
            entries@.len() == i,
            forall|k: int|
                0 <= k < i ==> {
                    let entry = #[trigger] entries@[k];
                    let placed = spec_entry_pos(families@, *options, geometry, k);
                    let x = spec_column_x(geometry, placed.column);
                    entry.page == placed.page && entry.column == placed.column && entry.x == x
                        && entry.y == placed.y && text_models(entry.content.texts@)
                        == spec_entry_texts(families@[k], *options, x, placed.y)
                        && entry.content.photo@ == spec_photo_outcome(
                        *options,
                        photos@[k],
                        x,
                        placed.y,
                    ) && entry.content.height == spec_rendered_height(families@[k], *options)
                },
        decreases n - i,
    {
        let estimated = calculate_entry_height(&families[i], options);
        fc.place(estimated);
        let x = column_x(&geometry, fc.column);
        let content = render_family_entry(&families[i], options, &photos[i], x, fc.y);
        let rendered = content.height;
        proof {
            lemma_estimate_covers_render(families@[i as int], *options);
        }
        entries.push(PlacedEntry { page: fc.page, column: fc.column, x, y: fc.y, content });
        fc.advance(rendered + ENTRY_GAP);
        i = i + 1;
    }
    let body = BodySection { entries, page_count: fc.page + 1 };

    DocumentLayout { geometry, cover, toc, body }
}

/// The body cursor's column is always 0 or 1, and stays 0 in list
/// mode.
pub proof fn lemma_body_pos_columns(
    families: Seq<FamilyWithMembers>,
    o: PdfOptions,
    g: PageGeometry,
    i: int,
)
    ensures
        0 <= spec_body_pos(families, o, g, i).column <= 1,
        0 <= i < families.len() ==> 0 <= spec_entry_pos(families, o, g, i).column <= 1,
        !spec_is_grid(o) ==> spec_body_pos(families, o, g, i).column == 0,
        !spec_is_grid(o) && 0 <= i < families.len() ==> spec_entry_pos(
            families,
            o,
            g,
            i,
        ).column == 0,
    decreases i,
{
    if i > 0 {
        lemma_body_pos_columns(families, o, g, i - 1);
    }
}

/// The body cursor's page index never decreases as entries are placed.
pub proof fn lemma_body_page_monotone(
    families: Seq<FamilyWithMembers>,
    o: PdfOptions,
    g: PageGeometry,
    i: int,
    j: int,
)
    requires
        0 <= i <= j,
    ensures
        spec_body_pos(families, o, g, i).page <= spec_body_pos(families, o, g, j).page,
    decreases j - i,
{
    if i < j {
        lemma_body_page_monotone(families, o, g, i, j - 1);
    }
}

/// Every body entry lands on one of the body section's pages: its page
/// index is between 0 and the index of the section's last page.
pub proof fn lemma_entries_lie_on_body_pages(
    families: Seq<FamilyWithMembers>,
    o: PdfOptions,
    g: PageGeometry,
    i: int,
)
    requires
        0 <= i < families.len(),
    ensures
        0 <= spec_entry_pos(families, o, g, i).page,
        spec_entry_pos(families, o, g, i).page <= spec_body_pos(
            families,
            o,
            g,
            families.len() as int,
        ).page,
{
    lemma_body_page_monotone(families, o, g, 0, i);
    lemma_body_page_monotone(families, o, g, i + 1, families.len() as int);
}

/// The table-of-contents cursor's page index never decreases as lines
/// are placed.
pub proof fn lemma_toc_page_monotone(g: PageGeometry, i: int, j: int)
    requires
        0 <= i <= j,
    ensures
        spec_toc_pos(g, i).page <= spec_toc_pos(g, j).page,
    decreases j - i,
{
    if i < j {
        lemma_toc_page_monotone(g, i, j - 1);
    }
}

/// Every table-of-contents line lands on one of the section's pages.
pub proof fn lemma_toc_lines_lie_on_toc_pages(g: PageGeometry, i: int, n: int)
    requires
        0 <= i < n,
    ensures
        0 <= spec_toc_line_pos(g, i).page,
        spec_toc_line_pos(g, i).page <= spec_toc_pos(g, n).page,
{
    lemma_toc_page_monotone(g, 0, i);
    lemma_toc_page_monotone(g, i + 1, n);
}

/// Grid alternation: in grid mode, consecutive entries either stay in
/// the same column of the same page, or move from column 0 to column 1
/// of the same page, or break from column 1 to column 0 of the next
/// page — a column is never skipped and a page never gains a third
/// column.
pub proof fn lemma_grid_alternation(
    families: Seq<FamilyWithMembers>,
    o: PdfOptions,
    g: PageGeometry,
    i: int,
)
    requires
        spec_is_grid(o),
        0 <= i,
        i + 1 < families.len(),
    ensures
        ({
            let here = spec_entry_pos(families, o, g, i);
            let next = spec_entry_pos(families, o, g, i + 1);
            (next.page == here.page && next.column == here.column) || (next.page == here.page
                && here.column == 0 && next.column == 1) || (next.page == here.page + 1
                && here.column == 1 && next.column == 0)
        }),
{
    lemma_body_pos_columns(families, o, g, i);
}

} // verus!
