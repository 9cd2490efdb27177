//! Typed failures of the tag catalog operations.

use vstd::prelude::*;
use vstd::string::StringExecFns;

verus! {

/// `anyhow::Error`, the source error that a service failure carries.
#[verifier::external_type_specification]
#[verifier::external_body]
pub struct ExAnyhowError(anyhow::Error);

/// Name of the ownership policy that guards tag updates and deletes.
pub const TAG_DATA_OWNER_POLICY: &'static str = "tag::TAG_DATA_OWNER";

/// Failures of the catalog operations.
///
/// Distinct variants keep not-found and ownership denials inspectable;
/// storage and history failures land in `Service`.
#[derive(Debug)]
pub enum TagError {
    /// No tag row for the given bare id (update path).
    NotFound {
        /// Bare record id.
        id: String,
    },
    /// Caller failed an ownership / privacy check.
    AccessDenied {
        /// Policy rule name (e.g. `tag::TAG_DATA_OWNER`).
        policy: &'static str,
    },
    /// Underlying storage, history, or ownership service failure.
    Service {
        /// Operation label (e.g. `create`, `delete`, `list`).
        operation: &'static str,
        /// Source error.
        source: anyhow::Error,
    },
}

/// The text a `Service` failure of `operation` displays when its source displays `source_text`.
pub open spec fn service_text(operation: &'static str, source_text: Seq<char>) -> Seq<char> {
    "tag catalog "@ + operation@ + " failed: "@ + source_text
}

/// `text` is what `e` displays. For a `Service` failure that is the operation
/// followed by a rendering of the source error's own `Display`.
pub open spec fn tag_error_displays(e: TagError, text: Seq<char>) -> bool {
    match e {
        TagError::NotFound { id } => text == "tag not found: "@ + id@,
        TagError::AccessDenied { policy } => text == "Access denied by policy: "@ + policy@,
        TagError::Service { operation, source } => exists|m: String|
            vstd::string::to_string_from_display_ensures::<anyhow::Error>(&source, m)
                && #[trigger] service_text(operation, m@) == text,
    }
}

impl TagError {
    /// A `NotFound` error for the bare id `id`.
    pub fn not_found(id: &str) -> (res: Self)
        ensures
            res matches TagError::NotFound { id: i } && i@ == id@,
    {
        TagError::NotFound { id: String::from_str(id) }
    }

    /// An `AccessDenied` error naming `policy`.
    pub fn access_denied(policy: &'static str) -> (res: Self)
        ensures
            res == (TagError::AccessDenied { policy }),
    {
        TagError::AccessDenied { policy }
    }

    /// A `Service` error for `operation`, carrying `source`.
    pub fn service(operation: &'static str, source: anyhow::Error) -> (res: Self)
        ensures
            res == (TagError::Service { operation, source }),
    {
        TagError::Service { operation, source }
    }

    /// The text this error displays (its `Display` rendering); a `Service`
    /// failure renders its source's `Display` at the time of the call.
    pub fn message(&self) -> (res: String)
        ensures
            tag_error_displays(*self, res@),
    {
        match self {
            TagError::NotFound { id } => String::from_str("tag not found: ").concat(id.as_str()),
            TagError::AccessDenied { policy } => String::from_str("Access denied by policy: ").concat(
                policy,
            ),
            TagError::Service { operation, source } => {
                let m = source.to_string();
                let res = String::from_str("tag catalog ").concat(operation).concat(" failed: ").concat(
                    m.as_str(),
                );
                assert(service_text(*operation, m@) == res@);
                res
            },
        }
    }

    /// The underlying error of a `Service` failure; `None` for the other variants.
    pub fn source(&self) -> (res: Option<&anyhow::Error>)
        ensures
            match *self {
                TagError::Service { source, .. } => res == Some(&source),
                _ => res is None,
            },
    {
        match self {
            TagError::Service { source, .. } => Some(source),
            _ => None,
        }
    }
}

} // verus!
