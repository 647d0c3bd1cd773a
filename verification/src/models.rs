//! The record types the engine consumes and the option snapshots that
//! configure a document run.
//!
//! The engine is handed an already-ordered list of [`FamilyWithMembers`]
//! values together with a [`PdfOptions`] snapshot; it never creates,
//! reorders or destroys records. The remaining types describe the
//! surrounding application's data (imports, settings, backups) and travel
//! through the engine's callers unchanged.

use vstd::prelude::*;

verus! {

/// A primary directory entity: the group under one display name, with
/// optional mailing, address and contact details and an optional photo
/// reference (a base relative path).
#[derive(Clone, Debug, PartialEq)]
pub struct Family {
    pub id: i64,
    pub family_id: String,
    pub name: String,
    pub mailing_name: Option<String>,
    pub address: Option<String>,
    pub city: Option<String>,
    pub state: Option<String>,
    pub zip: Option<String>,
    pub phone: Option<String>,
    pub email: Option<String>,
    pub photo_path: Option<String>,
    pub notes: Option<String>,
    pub created_at: String,
    pub updated_at: String,
}

/// The fields a caller supplies when creating a new family record.
#[derive(Clone, Debug, PartialEq)]
pub struct FamilyInput {
    pub family_id: String,
    pub name: String,
    pub mailing_name: Option<String>,
    pub address: Option<String>,
    pub city: Option<String>,
    pub state: Option<String>,
    pub zip: Option<String>,
    pub phone: Option<String>,
    pub email: Option<String>,
    pub photo_path: Option<String>,
    pub notes: Option<String>,
}

/// A partial update to a family record; absent fields stay unchanged.
#[derive(Clone, Debug, PartialEq)]
pub struct FamilyUpdate {
    pub family_id: Option<String>,
    pub name: Option<String>,
    pub mailing_name: Option<String>,
    pub address: Option<String>,
    pub city: Option<String>,
    pub state: Option<String>,
    pub zip: Option<String>,
    pub phone: Option<String>,
    pub email: Option<String>,
    pub photo_path: Option<String>,
    pub notes: Option<String>,
}

/// A sub-entity of a family: one person, ordered within the family by an
/// explicit sort key fixed by the caller.
#[derive(Clone, Debug, PartialEq)]
pub struct Member {
    pub id: i64,
    pub family_id: i64,
    pub first_name: String,
    pub last_name: String,
    pub role: Option<String>,
    pub birth_date: Option<String>,
    pub wedding_date: Option<String>,
    pub phone: Option<String>,
    pub email: Option<String>,
    pub photo_path: Option<String>,
    pub notes: Option<String>,
    pub sort_order: i32,
    pub created_at: String,
    pub updated_at: String,
}

/// The fields a caller supplies when creating a new member record.
#[derive(Clone, Debug, PartialEq)]
pub struct MemberInput {
    pub family_id: i64,
    pub first_name: String,
    pub last_name: String,
    pub role: Option<String>,
    pub birth_date: Option<String>,
    pub wedding_date: Option<String>,
    pub phone: Option<String>,
    pub email: Option<String>,
    pub photo_path: Option<String>,
    pub notes: Option<String>,
    pub sort_order: i32,
}

/// A partial update to a member record; absent fields stay unchanged.
#[derive(Clone, Debug, PartialEq)]
pub struct MemberUpdate {
    pub first_name: Option<String>,
    pub last_name: Option<String>,
    pub role: Option<String>,
    pub birth_date: Option<String>,
    pub wedding_date: Option<String>,
    pub phone: Option<String>,
    pub email: Option<String>,
    pub photo_path: Option<String>,
    pub notes: Option<String>,
    pub sort_order: Option<i32>,
}

/// One group record as the engine receives it: the family plus its
/// ordered member sequence. The ordering is significant and fixed by the
/// caller; the engine never reorders it.
#[derive(Clone, Debug, PartialEq)]
pub struct FamilyWithMembers {
    pub family: Family,
    pub members: Vec<Member>,
}

/// The application's persisted preferences; the directory-wide defaults
/// from which a [`PdfOptions`] snapshot is usually built.
#[derive(Clone, Debug, PartialEq)]
pub struct Settings {
    pub church_name: String,
    pub church_logo_path: Option<String>,
    pub theme: String,
    pub default_layout: String,
    pub page_size: String,
    pub include_photos: bool,
    pub include_contact_info: bool,
    pub include_address: bool,
}

/// The theme used when none has been chosen yet.
pub fn default_theme() -> (theme: String)
    ensures
        theme@ == "system"@,
{
    String::from_str("system")
}

impl Default for Settings {
    /// The settings a fresh installation starts from.
    fn default() -> (s: Settings)
        ensures
            s.church_name@ == "Our Church"@,
            s.church_logo_path is None,
            s.theme@ == "system"@,
            s.default_layout@ == "grid"@,
            s.page_size@ == "letter"@,
            s.include_photos,
            s.include_contact_info,
            s.include_address,
    {
        Settings {
            church_name: String::from_str("Our Church"),
            church_logo_path: None,
            theme: String::from_str("system"),
            default_layout: String::from_str("grid"),
            page_size: String::from_str("letter"),
            include_photos: true,
            include_contact_info: true,
            include_address: true,
        }
    }
}

/// A summary of what a spreadsheet import would create or change.
#[derive(Clone, Debug, PartialEq)]
pub struct ImportPreview {
    pub families: Vec<ImportFamilyPreview>,
    pub total_families: usize,
    pub total_members: usize,
    pub duplicates: Vec<DuplicateMatch>,
}

/// One family as it appears in an import preview.
#[derive(Clone, Debug, PartialEq)]
pub struct ImportFamilyPreview {
    pub family_id: String,
    pub name: String,
    pub address: Option<String>,
    pub members: Vec<ImportMemberPreview>,
    pub is_duplicate: bool,
    pub existing_family_id: Option<i64>,
}

/// One member as it appears in an import preview.
#[derive(Clone, Debug, PartialEq)]
pub struct ImportMemberPreview {
    pub first_name: String,
    pub last_name: String,
    pub role: Option<String>,
}

/// A family in an import that matches an existing record, either by its
/// external id or by name.
#[derive(Clone, Debug, PartialEq)]
pub struct DuplicateMatch {
    pub import_family_id: String,
    pub import_name: String,
    pub existing_id: i64,
    pub existing_name: String,
    pub match_type: String,
}

/// The counts an executed import reports back.
#[derive(Clone, Debug, PartialEq)]
pub struct ImportResult {
    pub families_created: usize,
    pub families_updated: usize,
    pub members_created: usize,
    pub members_updated: usize,
    pub errors: Vec<String>,
}

/// The read-only configuration snapshot for one document run: layout mode
/// (`"list"` or `"grid"`), page-size selector, the section and content
/// toggles, and the organization branding.
#[derive(Clone, Debug, PartialEq)]
pub struct PdfOptions {
    pub layout: String,
    pub page_size: String,
    pub include_photos: bool,
    pub include_contact_info: bool,
    pub include_address: bool,
    pub include_cover: bool,
    pub include_toc: bool,
    pub church_name: String,
    pub church_logo_path: Option<String>,
}

/// The manifest written into a backup archive.
#[derive(Clone, Debug, PartialEq)]
pub struct BackupManifest {
    pub version: String,
    pub created_at: String,
    pub app_version: String,
    pub family_count: usize,
    pub member_count: usize,
    pub photo_count: usize,
}

} // verus!
