//! Variant resolution for stored photos, as a pure filename convention.
//!
//! Every photo is stored in up to three renditions distinguished by a
//! filename suffix: the base display file (`photo.jpg`), a print-quality
//! sibling (`photo_full.jpg`) and a thumbnail (`photo_thumb.jpg`). The
//! functions here map a base path to its sibling paths; they never touch
//! the file system. Paths use `/` as the separator, and everything after
//! the last separator is taken as the file name; the stem is the file
//! name up to its last `.`, except that a `.` opening the file name (a
//! hidden file) does not end the stem.

use vstd::prelude::*;

verus! {

/// The index of the last occurrence of `c` in `s`, or -1 when `c` does
/// not occur.
pub open spec fn last_occurrence(s: Seq<char>, c: char) -> int
    decreases s.len(),
{
    if s.len() == 0 {
        -1
    } else if s[s.len() - 1] == c {
        s.len() - 1
    } else {
        last_occurrence(s.drop_last(), c)
    }
}

/// Where the stem of the file name inside the path `s` ends: the index
/// of the last `.` of the file name, unless that `.` opens the file name
/// or there is none, in which case the whole path is kept.
pub open spec fn spec_stem_end(s: Seq<char>) -> int {
    let sep = last_occurrence(s, '/');
    let dot = last_occurrence(s, '.');
    if dot > sep + 1 {
        dot
    } else {
        s.len() as int
    }
}

/// The print-quality sibling of a base photo path: the same directory and
/// stem with `_full.jpg` appended.
pub open spec fn spec_full_resolution_path(s: Seq<char>) -> Seq<char> {
    s.subrange(0, spec_stem_end(s)) + "_full.jpg"@
}

/// The thumbnail sibling of a base photo path: the same directory and
/// stem with `_thumb.jpg` appended.
pub open spec fn spec_thumbnail_path(s: Seq<char>) -> Seq<char> {
    s.subrange(0, spec_stem_end(s)) + "_thumb.jpg"@
}

/// Scans the path once and reports where its stem ends.
fn stem_end(path: &str) -> (end: usize)
    ensures
        end == spec_stem_end(path@),
        end <= path@.len(),
{
    let n = path.unicode_len();
    let mut last_sep: Option<usize> = None;
    let mut last_dot: Option<usize> = None;
    let mut i: usize = 0;
    while i < n
        invariant
            n == path@.len(),
            i <= n,
            match last_sep {
                Some(j) => j < i && j == last_occurrence(path@.subrange(0, i as int), '/'),
                None => last_occurrence(path@.subrange(0, i as int), '/') == -1,
            },
            match last_dot {
                Some(j) => j < i && j == last_occurrence(path@.subrange(0, i as int), '.'),
                None => last_occurrence(path@.subrange(0, i as int), '.') == -1,
            },
        decreases n - i,
    {
        let c = path.get_char(i);
        proof {
            assert(path@.subrange(0, i + 1 as int).drop_last() =~= path@.subrange(0, i as int));
        }
        if c == '/' {
            last_sep = Some(i);
        } else if c == '.' {
            last_dot = Some(i);
        }
        i = i + 1;
    }
    proof {
        assert(path@.subrange(0, n as int) =~= path@);
    }
    match (last_dot, last_sep) {
        (Some(d), Some(s)) => {
            if d > s + 1 {
                d
            } else {
                n
            }
        },
        (Some(d), None) => {
            if d > 0 {
                d
            } else {
                n
            }
        },
        _ => n,
    }
}

/// The full-resolution variant used for print-quality output: the same
/// directory and stem as `path`, with the `_full.jpg` suffix.
pub fn get_full_resolution_path(path: &str) -> (full: String)
    ensures
        full@ == spec_full_resolution_path(path@),
{
    let end = stem_end(path);
    let mut full = path.substring_char(0, end).to_owned();
    full.append("_full.jpg");
    full
}

/// The thumbnail variant used for list views: the same directory and
/// stem as `path`, with the `_thumb.jpg` suffix.
pub fn get_thumbnail_path(path: &str) -> (thumb: String)
    ensures
        thumb@ == spec_thumbnail_path(path@),
{
    let end = stem_end(path);
    let mut thumb = path.substring_char(0, end).to_owned();
    thumb.append("_thumb.jpg");
    thumb
}

/// The candidate files for one stored photo, in preference order: the
/// print-quality sibling first, then the base display file. A caller
/// that needs an image takes the first candidate that exists and
/// decodes.
pub fn photo_variant_candidates(path: &str) -> (candidates: Vec<String>)
    ensures
        candidates@.len() == 2,
        candidates@[0]@ == spec_full_resolution_path(path@),
        candidates@[1]@ == path@,
{
    let mut candidates: Vec<String> = Vec::new();
    candidates.push(get_full_resolution_path(path));
    candidates.push(path.to_owned());
    candidates
}

} // verus!
