//! End-to-end tests of the layout engine: geometry presets, image
//! fitting, height estimation, flow control and section assembly.

use directory_layout::content::{PhotoOutcome, PhotoSource, SkipReason};
use directory_layout::entry::render_family_entry;
use directory_layout::estimate::calculate_entry_height;
use directory_layout::flow::{FlowController, FlowState};
use directory_layout::geometry::resolve;
use directory_layout::image_fit::fit_image;
use directory_layout::layout::generate_layout;
use directory_layout::models::{Family, FamilyWithMembers, Member, PdfOptions};

fn family(name: &str) -> Family {
    Family {
        id: 1,
        family_id: String::from("F-1"),
        name: String::from(name),
        mailing_name: None,
        address: None,
        city: None,
        state: None,
        zip: None,
        phone: None,
        email: None,
        photo_path: None,
        notes: None,
        created_at: String::from("2024-01-01"),
        updated_at: String::from("2024-01-01"),
    }
}

fn member(first: &str, last: &str, role: Option<&str>) -> Member {
    Member {
        id: 1,
        family_id: 1,
        first_name: String::from(first),
        last_name: String::from(last),
        role: role.map(String::from),
        birth_date: None,
        wedding_date: None,
        phone: None,
        email: None,
        photo_path: None,
        notes: None,
        sort_order: 0,
        created_at: String::from("2024-01-01"),
        updated_at: String::from("2024-01-01"),
    }
}

fn record(name: &str, members: Vec<Member>) -> FamilyWithMembers {
    FamilyWithMembers { family: family(name), members }
}

fn options() -> PdfOptions {
    PdfOptions {
        layout: String::from("list"),
        page_size: String::from("letter"),
        include_photos: false,
        include_contact_info: false,
        include_address: false,
        include_cover: false,
        include_toc: false,
        church_name: String::from("First Community"),
        church_logo_path: None,
    }
}

#[test]
fn resolve_letter_preset() {
    let g = resolve("letter");
    assert_eq!(g.width, 21590);
    assert_eq!(g.height, 27940);
    assert_eq!(g.margin, 2000);
}

#[test]
fn resolve_a4_preset() {
    let g = resolve("a4");
    assert_eq!(g.width, 21000);
    assert_eq!(g.height, 29700);
    assert_eq!(g.margin, 2000);
}

#[test]
fn resolve_presets_distinct() {
    assert_ne!(resolve("letter"), resolve("a4"));
}

#[test]
fn resolve_unknown_falls_back_to_letter() {
    assert_eq!(resolve("tabloid"), resolve("letter"));
    assert_eq!(resolve(""), resolve("letter"));
}

#[test]
fn fit_wide_image_constrained_by_width() {
    let (w, h) = fit_image(1000, 500, 4000, 5000);
    assert_eq!(w, 4000);
    assert_eq!(h, 2000);
}

#[test]
fn fit_tall_image_constrained_by_height() {
    let (w, h) = fit_image(500, 1000, 4000, 5000);
    assert_eq!(w, 2500);
    assert_eq!(h, 5000);
}

#[test]
fn fit_square_image_in_photo_box() {
    let (w, h) = fit_image(600, 600, 4000, 5000);
    assert_eq!(w, 4000);
    assert_eq!(h, 4000);
}

#[test]
fn estimate_name_and_members_only() {
    let rec = record("Alder", vec![member("Ann", "Alder", None), member("Ben", "Alder", None)]);
    let opts = options();
    assert_eq!(calculate_entry_height(&rec, &opts), 1000 + 2 * 500);
}

#[test]
fn estimate_counts_details_when_enabled() {
    let mut rec = record("Birch", vec![]);
    rec.family.mailing_name = Some(String::from("The Birch Family"));
    rec.family.address = Some(String::from("12 Elm St"));
    rec.family.phone = Some(String::from("555-0100"));
    rec.family.email = Some(String::from("birch@example.com"));
    let mut opts = options();

    assert_eq!(calculate_entry_height(&rec, &opts), 1000);

    opts.include_address = true;
    assert_eq!(calculate_entry_height(&rec, &opts), 1000 + 500 + 1000);

    opts.include_contact_info = true;
    assert_eq!(calculate_entry_height(&rec, &opts), 1000 + 500 + 1000 + 500 + 500);
}

#[test]
fn estimate_applies_photo_floor() {
    let rec = record("Cedar", vec![]);
    let mut opts = options();
    opts.include_photos = true;
    assert_eq!(calculate_entry_height(&rec, &opts), 5000 + 500);
}

#[test]
fn estimate_tall_text_beats_photo_floor() {
    let members = (0..12).map(|k| member("Kid", &format!("N{}", k), None)).collect();
    let rec = record("Dogwood", members);
    let mut opts = options();
    opts.include_photos = true;
    assert_eq!(calculate_entry_height(&rec, &opts), 1000 + 12 * 500);
}

#[test]
fn flow_keeps_position_when_entry_fits() {
    let mut fc = FlowController::new(resolve("letter"), false);
    assert_eq!(fc.y, 27940 - 2000);
    fc.place(23000);
    assert_eq!(fc.page, 0);
    assert_eq!(fc.y, 25940);
    fc.advance(23000 + 1000);
    assert_eq!(fc.y, 1940);
    assert_eq!(fc.state, FlowState::MidSection);
}

#[test]
fn flow_breaks_page_when_entry_does_not_fit() {
    let mut fc = FlowController::new(resolve("letter"), false);
    fc.place(24000);
    assert_eq!(fc.page, 1);
    assert_eq!(fc.column, 0);
    assert_eq!(fc.y, 25940);
    assert_eq!(fc.state, FlowState::AtTop);
}

#[test]
fn flow_grid_fills_second_column_before_new_page() {
    let mut fc = FlowController::new(resolve("letter"), true);
    fc.place(24000);
    assert_eq!((fc.page, fc.column, fc.y), (0, 1, 25940));
    fc.advance(24000);
    fc.place(24000);
    assert_eq!((fc.page, fc.column, fc.y), (1, 0, 25940));
}

#[test]
fn body_completeness_in_list_mode() {
    let families = vec![
        record("Alder", vec![member("Ann", "Alder", None)]),
        record("Birch", vec![]),
        record("Cedar", vec![member("Carl", "Cedar", Some("Head"))]),
    ];
    let photos = vec![None, None, None];
    let doc = generate_layout(&families, &photos, &options());

    assert_eq!(doc.body.entries.len(), 3);
    for (i, expected) in ["Alder", "Birch", "Cedar"].iter().enumerate() {
        let entry = &doc.body.entries[i];
        assert_eq!(entry.content.texts[0].text, *expected);
        assert_eq!(entry.column, 0);
        assert_eq!(entry.x, 2000);
    }
    // Entry heights: name block plus one member line where present.
    assert_eq!(doc.body.entries[0].y, 25940);
    assert_eq!(doc.body.entries[1].y, 25940 - (1000 + 500) - 1000);
    assert_eq!(doc.body.entries[2].y, 25940 - (1000 + 500) - 1000 - 1000 - 1000);
    assert_eq!(doc.body.page_count, 1);
}

#[test]
fn body_empty_input_yields_single_blank_page() {
    let doc = generate_layout(&vec![], &vec![], &options());
    assert_eq!(doc.body.entries.len(), 0);
    assert_eq!(doc.body.page_count, 1);
    assert!(doc.toc.is_none());
    assert!(doc.cover.is_none());
}

#[test]
fn cover_carries_title_and_subtitle() {
    let mut opts = options();
    opts.include_cover = true;
    let doc = generate_layout(&vec![record("Alder", vec![])], &vec![None], &opts);
    let cover = doc.cover.expect("cover requested");
    assert_eq!(cover.title.text, "First Community");
    assert_eq!(cover.title.size_pt, 24);
    assert!(cover.title.bold);
    assert_eq!(cover.title.y, 25940);
    assert_eq!(cover.subtitle.text, "Photo Directory");
    assert_eq!(cover.subtitle.y, 25940 - 1500);
}

#[test]
fn toc_lists_every_name_in_order() {
    let families = vec![
        record("Alder", vec![]),
        record("Birch", vec![]),
        record("Cedar", vec![]),
    ];
    let photos = vec![None, None, None];
    let mut opts = options();
    opts.include_toc = true;
    let doc = generate_layout(&families, &photos, &opts);

    let toc = doc.toc.expect("toc requested");
    assert_eq!(toc.heading.text, "Table of Contents");
    assert_eq!(toc.lines.len(), 3);
    for (i, expected) in ["Alder", "Birch", "Cedar"].iter().enumerate() {
        assert_eq!(toc.lines[i].item.text, *expected);
        assert_eq!(toc.lines[i].page, 0);
        assert_eq!(toc.lines[i].item.x, 2000);
        assert_eq!(toc.lines[i].item.y, 25940 - 1500 - 500 * i as i64);
    }
    assert_eq!(toc.page_count, 1);
}

#[test]
fn toc_omitted_for_empty_record_list() {
    let mut opts = options();
    opts.include_toc = true;
    let doc = generate_layout(&vec![], &vec![], &opts);
    assert!(doc.toc.is_none());
}

#[test]
fn toc_breaks_to_further_pages() {
    let families: Vec<FamilyWithMembers> =
        (0..50).map(|k| record(&format!("Family {:02}", k), vec![])).collect();
    let photos = vec![None; 50];
    let mut opts = options();
    opts.include_toc = true;
    let doc = generate_layout(&families, &photos, &opts);

    let toc = doc.toc.expect("toc requested");
    assert_eq!(toc.lines.len(), 50);
    // Lines start at 24440 and step down 500; the line that would land
    // below the margin moves to the top of a fresh page.
    assert_eq!(toc.lines[43].page, 0);
    assert_eq!(toc.lines[43].item.y, 24440 - 500 * 43);
    assert_eq!(toc.lines[44].page, 1);
    assert_eq!(toc.lines[44].item.y, 25940);
    assert_eq!(toc.page_count, 2);
}

#[test]
fn grid_alternates_columns_then_breaks_page() {
    let families: Vec<FamilyWithMembers> =
        (0..10).map(|k| record(&format!("Family {:02}", k), vec![])).collect();
    let photos: Vec<Option<PhotoSource>> = vec![None; 10];
    let mut opts = options();
    opts.layout = String::from("grid");
    opts.include_photos = true;
    let doc = generate_layout(&families, &photos, &opts);

    // Each entry estimates 5500 and consumes 5000 plus the 1000 gap,
    // so four entries fill a column.
    let placements: Vec<(usize, usize)> =
        doc.body.entries.iter().map(|e| (e.page, e.column)).collect();
    assert_eq!(
        placements,
        vec![
            (0, 0),
            (0, 0),
            (0, 0),
            (0, 0),
            (0, 1),
            (0, 1),
            (0, 1),
            (0, 1),
            (1, 0),
            (1, 0),
        ]
    );

    // Alternation: consecutive entries share a column, or move 0 -> 1
    // on the same page, or break 1 -> 0 onto the next page.
    for pair in doc.body.entries.windows(2) {
        let (p, c) = (pair[0].page, pair[0].column);
        let (q, d) = (pair[1].page, pair[1].column);
        assert!(
            (q == p && d == c) || (q == p && c == 0 && d == 1) || (q == p + 1 && c == 1 && d == 0)
        );
    }

    // Column 1 starts past half the inner width plus the middle margin.
    assert_eq!(doc.body.entries[4].x, 2000 + (21590 - 3 * 2000) / 2 + 2000);
}

#[test]
fn estimate_bounds_rendered_height() {
    let mut rec = record("Holly", vec![member("Hank", "Holly", None)]);
    rec.family.mailing_name = Some(String::from("The Holly Family"));
    rec.family.address = Some(String::from("9 Oak Row"));
    rec.family.city = Some(String::from("Springfield"));
    rec.family.phone = Some(String::from("555-0101"));
    rec.family.email = Some(String::from("holly@example.com"));

    let mut opts = options();
    for photos_on in [false, true] {
        for address_on in [false, true] {
            for contact_on in [false, true] {
                opts.include_photos = photos_on;
                opts.include_address = address_on;
                opts.include_contact_info = contact_on;
                let estimated = calculate_entry_height(&rec, &opts);
                let rendered = render_family_entry(&rec, &opts, &None, 2000, 25940).height;
                assert!(rendered <= estimated);
            }
        }
    }
}

#[test]
fn member_lines_show_role_in_parentheses() {
    let rec = record(
        "Ivy",
        vec![member("Iris", "Ivy", Some("Head")), member("Ian", "Ivy", None)],
    );
    let entry = render_family_entry(&rec, &options(), &None, 2000, 25940);
    assert_eq!(entry.texts.len(), 3);
    assert_eq!(entry.texts[0].text, "Ivy");
    assert!(entry.texts[0].bold);
    assert_eq!(entry.texts[1].text, "Iris Ivy (Head)");
    assert_eq!(entry.texts[2].text, "Ian Ivy");
    // Members are indented and sit below the name and the half-line gap.
    assert_eq!(entry.texts[1].x, 2500);
    assert_eq!(entry.texts[1].y, 25940 - 750 - 250);
    assert_eq!(entry.texts[2].y, 25940 - 750 - 250 - 500);
}

#[test]
fn address_block_renders_composite_line() {
    let mut rec = record("Juniper", vec![]);
    rec.family.address = Some(String::from("4 Pine Ct"));
    rec.family.city = Some(String::from("Riverton"));
    rec.family.state = Some(String::from("OH"));
    rec.family.zip = Some(String::from("44001"));
    let mut opts = options();
    opts.include_address = true;

    let entry = render_family_entry(&rec, &opts, &None, 2000, 25940);
    assert_eq!(entry.texts[1].text, "4 Pine Ct");
    assert_eq!(entry.texts[2].text, "Riverton, OH 44001");
}

#[test]
fn composite_line_without_state_or_city() {
    let mut rec = record("Laurel", vec![]);
    rec.family.address = Some(String::from("7 Fir Way"));
    rec.family.city = Some(String::from("Riverton"));
    rec.family.zip = Some(String::from("44001"));
    let mut opts = options();
    opts.include_address = true;
    let entry = render_family_entry(&rec, &opts, &None, 2000, 25940);
    assert_eq!(entry.texts[2].text, "Riverton 44001");

    rec.family.city = None;
    rec.family.zip = None;
    rec.family.state = Some(String::from("OH"));
    let entry = render_family_entry(&rec, &opts, &None, 2000, 25940);
    assert_eq!(entry.texts[2].text, "OH");
}

#[test]
fn missing_photo_keeps_entry_complete() {
    let rec = record("Maple", vec![member("May", "Maple", None)]);
    let mut opts = options();
    opts.include_photos = true;

    let without = render_family_entry(&rec, &opts, &None, 2000, 25940);
    assert_eq!(without.photo, PhotoOutcome::Skipped(SkipReason::ImageUnavailable));
    assert_eq!(without.texts.len(), 2);
    assert_eq!(without.texts[0].text, "Maple");

    let source = PhotoSource {
        path: String::from("families/maple_full.jpg"),
        width_px: 800,
        height_px: 600,
    };
    let with = render_family_entry(&rec, &opts, &Some(source), 2000, 25940);
    // The text is identical whether or not the photo could be used.
    assert_eq!(with.texts, without.texts);
    assert!(matches!(with.photo, PhotoOutcome::Placed(_)));
}

#[test]
fn placed_photo_is_fitted_and_anchored_top_left() {
    let rec = record("Oak", vec![]);
    let mut opts = options();
    opts.include_photos = true;
    let source = PhotoSource {
        path: String::from("families/oak.jpg"),
        width_px: 1000,
        height_px: 500,
    };
    let entry = render_family_entry(&rec, &opts, &Some(source), 2000, 25940);
    match entry.photo {
        PhotoOutcome::Placed(image) => {
            assert_eq!(image.width, 4000);
            assert_eq!(image.height, 2000);
            assert_eq!(image.x, 2000);
            assert_eq!(image.y, 25940 - 2000);
            assert_eq!(image.source, "families/oak.jpg");
        }
        PhotoOutcome::Skipped(reason) => panic!("photo unexpectedly skipped: {:?}", reason),
    }
    // Text shifts right past the photo box even though the box is
    // taller than the text.
    assert_eq!(entry.texts[0].x, 2000 + 4000 + 500);
    assert_eq!(entry.height, 5000);
}

#[test]
fn zero_pixel_image_is_skipped() {
    let rec = record("Pine", vec![]);
    let mut opts = options();
    opts.include_photos = true;
    let source = PhotoSource { path: String::from("families/pine.jpg"), width_px: 0, height_px: 600 };
    let entry = render_family_entry(&rec, &opts, &Some(source), 2000, 25940);
    assert_eq!(entry.photo, PhotoOutcome::Skipped(SkipReason::EmptyImage));
}

#[test]
fn photos_disabled_skips_without_shifting_text() {
    let rec = record("Rowan", vec![]);
    let source = PhotoSource {
        path: String::from("families/rowan.jpg"),
        width_px: 800,
        height_px: 600,
    };
    let entry = render_family_entry(&rec, &options(), &Some(source), 2000, 25940);
    assert_eq!(entry.photo, PhotoOutcome::Skipped(SkipReason::PhotosDisabled));
    assert_eq!(entry.texts[0].x, 2000);
    assert_eq!(entry.height, 1000);
}

#[test]
fn a4_geometry_reaches_the_document() {
    let mut opts = options();
    opts.page_size = String::from("a4");
    let doc = generate_layout(&vec![record("Alder", vec![])], &vec![None], &opts);
    assert_eq!(doc.geometry, resolve("a4"));
    // A fresh A4 page starts content at 297.0 mm minus the margin.
    assert_eq!(doc.body.entries[0].y, 29700 - 2000);
}

#[test]
fn oversized_entry_moves_whole_to_fresh_page() {
    let members = (0..60).map(|k| member("Kid", &format!("N{:02}", k), None)).collect();
    let families = vec![record("Alder", vec![]), record("Spruce", members)];
    let photos = vec![None, None];
    let doc = generate_layout(&families, &photos, &options());

    // The second entry (60 member lines, 31000 tall) cannot fit under
    // the first and starts a page of its own, whole.
    assert_eq!(doc.body.entries[0].page, 0);
    assert_eq!(doc.body.entries[1].page, 1);
    assert_eq!(doc.body.entries[1].y, 25940);
    assert_eq!(doc.body.page_count, 2);
}
