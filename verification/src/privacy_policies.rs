//! The ownership privacy rule of tag rows.

use crate::error::TAG_DATA_OWNER_POLICY;
use crate::types::opt_view;
use vstd::prelude::*;

verus! {

/// The owner recorded in an ownership row, as the rule reads it: `None` when
/// there is no ownership row, `Some(None)` when the row names no owner, and
/// `Some(Some(o))` for the normalized owner id `o`.
pub open spec fn owner_row_view(row: Option<Option<String>>) -> Option<Option<Seq<char>>> {
    match row {
        Some(o) => Some(opt_view(o)),
        None => None,
    }
}

/// A user owns a row when the ownership row names exactly that user.
pub open spec fn owns(actor: Seq<char>, row: Option<Option<Seq<char>>>) -> bool {
    row == Some(Some(actor))
}

/// Whether the ownership row names `actor` as owner.
pub fn owner_matches(actor: &str, row: &Option<Option<String>>) -> (res: bool)
    ensures
        res == owns(actor@, owner_row_view(*row)),
{
    match row {
        Some(Some(o)) => crate::text::str_eq(o.as_str(), actor),
        _ => false,
    }
}

/// What the rule needs next for a request.
#[derive(Debug)]
pub enum PolicyStep {
    /// The rule has decided without looking at ownership.
    Decided(bool),
    /// The rule needs the ownership row of `record`, to compare it with `actor`.
    LookupOwnership {
        /// Normalized user id of the acting user.
        actor: String,
        /// Normalized bare id of the record.
        record: String,
    },
}

/// Privacy policy allowing access when the data-ownership owner of a row
/// matches the requesting actor's user id.
#[derive(Debug, Clone, Copy)]
pub struct TagDataOwner;

/// Shared `TagDataOwner` instance for schema policy declarations.
pub const TAG_DATA_OWNER: TagDataOwner = TagDataOwner;

impl TagDataOwner {
    /// The rule's name.
    pub fn name(&self) -> (res: &'static str)
        ensures
            res@ == TAG_DATA_OWNER_POLICY@,
    {
        TAG_DATA_OWNER_POLICY
    }

    /// What the rule is for.
    pub fn description(&self) -> (res: Option<&'static str>)
        ensures
            res matches Some(d) && d@ == "Allow when valence_data_ownership owner matches the actor user"@,
    {
        Some("Allow when valence_data_ownership owner matches the actor user")
    }

    /// First half of the rule: without a user actor, or without a record id,
    /// access is refused; otherwise the ownership row of the record decides.
    pub fn evaluate(&self, actor: Option<String>, record: Option<String>) -> (res: PolicyStep)
        ensures
            match (actor, record) {
                (Some(a), Some(r)) => res matches PolicyStep::LookupOwnership { actor: a2, record: r2 }
                    && a2@ == a@ && r2@ == r@,
                _ => res matches PolicyStep::Decided(false),
            },
    {
        match (actor, record) {
            (Some(a), Some(r)) => PolicyStep::LookupOwnership { actor: a, record: r },
            _ => PolicyStep::Decided(false),
        }
    }

    /// Second half of the rule: access is allowed exactly when the ownership
    /// row names the acting user.
    pub fn verdict(&self, actor: &str, row: &Option<Option<String>>) -> (res: bool)
        ensures
            res == owns(actor@, owner_row_view(*row)),
    {
        owner_matches(actor, row)
    }
}

} // verus!
