//! Positioned page content: the output vocabulary of the engine.
//!
//! The engine emits text lines and image placements with absolute
//! positions, in hundredths of a millimeter from the page's lower-left
//! corner, together with font sizes in points. An unverified painter
//! only has to copy these values into a document file.

use vstd::prelude::*;

verus! {

/// Font size of the cover title, in points.
pub const TITLE_SIZE_PT: u32 = 24;

/// Font size of headings (entry names, section headings), in points.
pub const HEADING_SIZE_PT: u32 = 14;

/// Font size of body text, in points.
pub const TEXT_SIZE_PT: u32 = 10;

/// One positioned line of text. `y` is the text baseline.
#[derive(Clone, Debug, PartialEq)]
pub struct TextItem {
    pub x: i64,
    pub y: i64,
    pub size_pt: u32,
    pub bold: bool,
    pub text: String,
}

/// The mathematical model of a positioned text line.
pub struct TextModel {
    pub x: int,
    pub y: int,
    pub size_pt: int,
    pub bold: bool,
    pub text: Seq<char>,
}

impl View for TextItem {
    type V = TextModel;

    open spec fn view(&self) -> TextModel {
        TextModel {
            x: self.x as int,
            y: self.y as int,
            size_pt: self.size_pt as int,
            bold: self.bold,
            text: self.text@,
        }
    }
}

/// The models of a sequence of text lines, in order.
pub open spec fn text_models(items: Seq<TextItem>) -> Seq<TextModel> {
    items.map_values(|t: TextItem| t@)
}

/// One positioned image. `x` and `y` are the lower-left corner of the
/// rendered image; `width` and `height` are its rendered extent in
/// hundredths of a millimeter; `source` names the image file to draw.
#[derive(Clone, Debug, PartialEq)]
pub struct ImageItem {
    pub x: i64,
    pub y: i64,
    pub width: i64,
    pub height: i64,
    pub source: String,
}

/// The mathematical model of a positioned image.
pub struct ImageModel {
    pub x: int,
    pub y: int,
    pub width: int,
    pub height: int,
    pub source: Seq<char>,
}

impl View for ImageItem {
    type V = ImageModel;

    open spec fn view(&self) -> ImageModel {
        ImageModel {
            x: self.x as int,
            y: self.y as int,
            width: self.width as int,
            height: self.height as int,
            source: self.source@,
        }
    }
}

/// A photograph the caller has already located and decoded for one
/// record: the chosen variant's path and its size in pixels. `None`
/// stands for a record whose photo does not exist in any known variant
/// or could not be decoded.
#[derive(Clone, Debug, PartialEq)]
pub struct PhotoSource {
    pub path: String,
    pub width_px: u32,
    pub height_px: u32,
}

/// Why an entry carries no placed photo.
#[derive(Clone, Copy, Debug, PartialEq, Eq, Structural)]
pub enum SkipReason {
    /// The run was configured without photos.
    PhotosDisabled,
    /// No decodable image was supplied for the record.
    ImageUnavailable,
    /// The supplied image has a zero pixel dimension and cannot be
    /// scaled.
    EmptyImage,
}

/// The photo part of one rendered entry: either a placed image or an
/// explicit, non-fatal skip. A skip never aborts the run; the entry's
/// text is rendered either way.
#[derive(Clone, Debug, PartialEq)]
pub enum PhotoOutcome {
    Placed(ImageItem),
    Skipped(SkipReason),
}

/// The mathematical model of a photo outcome.
pub enum PhotoModel {
    Placed(ImageModel),
    Skipped(SkipReason),
}

impl View for PhotoOutcome {
    type V = PhotoModel;

    open spec fn view(&self) -> PhotoModel {
        match self {
            PhotoOutcome::Placed(image) => PhotoModel::Placed(image@),
            PhotoOutcome::Skipped(reason) => PhotoModel::Skipped(*reason),
        }
    }
}

} // verus!
