//! A layout engine for paginated membership-directory documents.
//!
//! The crate turns an ordered list of group records plus a set of rendering
//! options into fully positioned page content: a cover page, a table of
//! contents, and a body laid out as a single-column list or a two-column
//! grid, with photographs fitted into fixed bounding boxes. All lengths are
//! integers in hundredths of a millimeter, so every geometric computation
//! is exact. Drawing the positioned content into an actual document file is
//! left to an unverified driver around this crate.

pub mod content;
pub mod entry;
pub mod estimate;
pub mod flow;
pub mod geometry;
pub mod image_fit;
pub mod layout;
pub mod models;
pub mod photo_paths;
