//! Wire shapes between the catalog operations and their callers, and the
//! plain-value model of a stored tag row.
//!
//! Timestamps are UTC instants: whole seconds since the Unix epoch and the
//! nanoseconds past them, the precision the stored rows carry.

use vstd::prelude::*;

verus! {

/// An instant in UTC: `secs` whole seconds since 1970-01-01T00:00:00Z and
/// `nanos` nanoseconds past them (up to 1,999,999,999 within a leap second).
/// The derived order is the order in time.
#[derive(Clone, Copy, Debug, PartialEq, Eq, PartialOrd, Ord, Hash)]
pub struct UtcInstant {
    /// Whole seconds since the Unix epoch (negative before it).
    pub secs: i64,
    /// Nanoseconds past `secs`.
    pub nanos: u32,
}

/// Input for creating a new tag.
#[derive(Debug, Clone)]
pub struct TagCreateInput {
    /// Display name of the tag.
    pub name: String,
    /// Optional taxonomy/category grouping.
    pub taxonomy: Option<String>,
    /// Optional free-text description.
    pub description: Option<String>,
}

/// Partial update for an existing tag; only `Some` fields are applied.
#[derive(Debug, Clone)]
pub struct TagUpdateInput {
    /// New display name, if changed.
    pub name: Option<String>,
    /// New taxonomy/category grouping, if changed.
    pub taxonomy: Option<String>,
    /// New free-text description, if changed.
    pub description: Option<String>,
}

/// Tag row shape used in list views (list/table/picker).
#[derive(Debug, Clone)]
pub struct TagRowDto {
    /// Bare record id (no table prefix).
    pub id: String,
    /// Display name of the tag.
    pub name: String,
    /// Optional taxonomy/category grouping.
    pub taxonomy: Option<String>,
    /// Optional free-text description.
    pub description: Option<String>,
    /// Human-readable owner label (`"you"`, a user id, or `"owner"` as a fallback).
    pub owner_display: String,
    /// Last-updated timestamp.
    pub updated_at: UtcInstant,
}

/// Full tag row shape used on the detail page.
#[derive(Debug, Clone)]
pub struct TagDetailDto {
    /// Bare record id (no table prefix).
    pub id: String,
    /// Display name of the tag.
    pub name: String,
    /// Optional taxonomy/category grouping.
    pub taxonomy: Option<String>,
    /// Optional free-text description.
    pub description: Option<String>,
    /// Human-readable owner label (`"you"`, a user id, or `"owner"` as a fallback).
    pub owner_display: String,
    /// Creation timestamp.
    pub created_at: UtcInstant,
    /// Last-updated timestamp.
    pub updated_at: UtcInstant,
}

/// A stored tag row as the storage layer hands it back.
#[derive(Debug, Clone)]
pub struct TagSnapshot {
    /// Bare record id read back from the row, when the row carries one.
    pub id: Option<String>,
    /// Display name.
    pub name: String,
    /// Optional taxonomy/category grouping.
    pub taxonomy: Option<String>,
    /// Optional free-text description.
    pub description: Option<String>,
    /// Creation timestamp.
    pub created_at: UtcInstant,
    /// Last-updated timestamp.
    pub updated_at: UtcInstant,
}

/// A copy of a stored row.
pub fn clone_snapshot(t: &TagSnapshot) -> (res: TagSnapshot)
    ensures
        res@ == t@,
{
    TagSnapshot {
        id: clone_opt(&t.id),
        name: t.name.clone(),
        taxonomy: clone_opt(&t.taxonomy),
        description: clone_opt(&t.description),
        created_at: t.created_at,
        updated_at: t.updated_at,
    }
}

/// A reference to a record: its table and bare id.
#[derive(Debug, Clone)]
pub struct RecordRef {
    /// Table name.
    pub table: String,
    /// Bare record id.
    pub id: String,
}

/// The view of a stored tag row.
pub struct TagSnapshotView {
    pub id: Option<Seq<char>>,
    pub name: Seq<char>,
    pub taxonomy: Option<Seq<char>>,
    pub description: Option<Seq<char>>,
    pub created_at: UtcInstant,
    pub updated_at: UtcInstant,
}

impl View for TagSnapshot {
    type V = TagSnapshotView;

    open spec fn view(&self) -> TagSnapshotView {
        TagSnapshotView {
            id: opt_view(self.id),
            name: self.name@,
            taxonomy: opt_view(self.taxonomy),
            description: opt_view(self.description),
            created_at: self.created_at,
            updated_at: self.updated_at,
        }
    }
}

/// The view of a list row.
pub struct TagRowView {
    pub id: Seq<char>,
    pub name: Seq<char>,
    pub taxonomy: Option<Seq<char>>,
    pub description: Option<Seq<char>>,
    pub owner_display: Seq<char>,
    pub updated_at: UtcInstant,
}

impl View for TagRowDto {
    type V = TagRowView;

    open spec fn view(&self) -> TagRowView {
        TagRowView {
            id: self.id@,
            name: self.name@,
            taxonomy: opt_view(self.taxonomy),
            description: opt_view(self.description),
            owner_display: self.owner_display@,
            updated_at: self.updated_at,
        }
    }
}

/// The view of a detail row.
pub struct TagDetailView {
    pub id: Seq<char>,
    pub name: Seq<char>,
    pub taxonomy: Option<Seq<char>>,
    pub description: Option<Seq<char>>,
    pub owner_display: Seq<char>,
    pub created_at: UtcInstant,
    pub updated_at: UtcInstant,
}

impl View for TagDetailDto {
    type V = TagDetailView;

    open spec fn view(&self) -> TagDetailView {
        TagDetailView {
            id: self.id@,
            name: self.name@,
            taxonomy: opt_view(self.taxonomy),
            description: opt_view(self.description),
            owner_display: self.owner_display@,
            created_at: self.created_at,
            updated_at: self.updated_at,
        }
    }
}

/// The view of an optional text.
pub open spec fn opt_view(o: Option<String>) -> Option<Seq<char>> {
    match o {
        Some(s) => Some(s@),
        None => None,
    }
}

/// The view of an optional row.
pub open spec fn opt_snapshot_view(o: Option<TagSnapshot>) -> Option<TagSnapshotView> {
    match o {
        Some(t) => Some(t@),
        None => None,
    }
}

/// A copy of an optional text.
pub fn clone_opt(o: &Option<String>) -> (res: Option<String>)
    ensures
        opt_view(res) == opt_view(*o),
{
    match o {
        Some(s) => Some(s.clone()),
        None => None,
    }
}

} // verus!
