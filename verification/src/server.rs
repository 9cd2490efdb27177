//! Failures and request checks of the catalog's server functions.

use crate::error::{service_text, tag_error_displays, TagError};
use crate::search_sources::{
    catalog_item, catalog_items_from_list, source_id_text, take_items, SearchSourceItem,
    SearchSourceKey, TagSearchSourceId,
};
use crate::text::{non_blank, non_blank_view};
use crate::types::{opt_view, TagRowDto};
use vstd::prelude::*;
use vstd::std_specs::convert::FromSpecImpl;
use vstd::string::StringExecFns;

verus! {

/// Server function failures (auth, domain, search sources, infrastructure).
///
/// `NotAuthenticated`, `AccessDenied`, `NotFound` and `InvalidSource` are
/// permanent for the request; `Service` and `Valence` are infrastructure failures.
#[derive(Debug)]
pub enum TagServerError {
    /// The caller has no authenticated session but one is required.
    NotAuthenticated,
    /// No tag row for the given bare id.
    NotFound {
        /// Bare record id.
        id: String,
    },
    /// Caller failed an ownership / privacy check.
    AccessDenied {
        /// Policy rule name (e.g. `tag::TAG_DATA_OWNER`).
        policy: &'static str,
    },
    /// Picker requested a search source this server function does not serve.
    InvalidSource(String),
    /// Underlying storage, history, or ownership service failure.
    Service {
        /// Operation label (e.g. `create`, `delete`, `list`).
        operation: &'static str,
        /// Display-safe source message.
        message: String,
    },
    /// Failed to build a storage handle for the request.
    Valence(String),
}

impl FromSpecImpl<TagError> for TagServerError {
    /// What a service failure becomes depends on its source's `Display`,
    /// which is no function of the value; `from` states it as a relation below.
    open spec fn obeys_from_spec() -> bool {
        false
    }

    open spec fn from_spec(v: TagError) -> TagServerError {
        match v {
            TagError::NotFound { id } => TagServerError::NotFound { id },
            TagError::AccessDenied { policy } => TagServerError::AccessDenied { policy },
            TagError::Service { operation, source } => TagServerError::Service {
                operation,
                message: choose|m: String|
                    vstd::string::to_string_from_display_ensures::<anyhow::Error>(&source, m),
            },
        }
    }
}

/// `s` is the server failure that `v` becomes: the same variant, a service
/// failure keeping its operation and taking as message what its source displays.
pub open spec fn server_error_of(v: TagError, s: TagServerError) -> bool {
    match v {
        TagError::NotFound { id } => s == (TagServerError::NotFound { id }),
        TagError::AccessDenied { policy } => s == (TagServerError::AccessDenied { policy }),
        TagError::Service { operation, source } => s matches TagServerError::Service {
            operation: o,
            message,
        } && o == operation && vstd::string::to_string_from_display_ensures::<anyhow::Error>(
            &source,
            message,
        ),
    }
}

impl From<TagError> for TagServerError {
    /// Keep the variant; a service failure keeps its operation and the text
    /// its source displays.
    fn from(value: TagError) -> (res: Self)
        ensures
            server_error_of(value, res),
    {
        match value {
            TagError::NotFound { id } => TagServerError::NotFound { id },
            TagError::AccessDenied { policy } => TagServerError::AccessDenied { policy },
            TagError::Service { operation, source } => TagServerError::Service {
                operation,
                message: source.to_string(),
            },
        }
    }
}

/// The text a server failure displays.
pub open spec fn server_error_text(e: TagServerError) -> Seq<char> {
    match e {
        TagServerError::NotAuthenticated => "Authentication required"@,
        TagServerError::NotFound { id } => "tag not found: "@ + id@,
        TagServerError::AccessDenied { policy } => "Access denied by policy: "@ + policy@,
        TagServerError::InvalidSource(s) => "unsupported search source: "@ + s@,
        TagServerError::Service { operation, message } => service_text(operation, message@),
        TagServerError::Valence(s) => "Failed to build Valence: "@ + s@,
    }
}

/// The low-cardinality label of a server failure, for logs.
pub open spec fn server_error_kind(e: TagServerError) -> Seq<char> {
    match e {
        TagServerError::NotAuthenticated => "not_authenticated"@,
        TagServerError::NotFound { .. } => "not_found"@,
        TagServerError::AccessDenied { .. } => "access_denied"@,
        TagServerError::InvalidSource(_) => "invalid_source"@,
        TagServerError::Service { .. } => "service"@,
        TagServerError::Valence(_) => "valence"@,
    }
}

impl TagServerError {
    /// The text this failure displays (its `Display` rendering): what a client sees.
    pub fn message(&self) -> (res: String)
        ensures
            res@ == server_error_text(*self),
    {
        match self {
            TagServerError::NotAuthenticated => String::from_str("Authentication required"),
            TagServerError::NotFound { id } => String::from_str("tag not found: ").concat(id.as_str()),
            TagServerError::AccessDenied { policy } => String::from_str("Access denied by policy: ").concat(
                policy,
            ),
            TagServerError::InvalidSource(s) => String::from_str("unsupported search source: ").concat(
                s.as_str(),
            ),
            TagServerError::Service { operation, message } => String::from_str("tag catalog ").concat(
                operation,
            ).concat(" failed: ").concat(message.as_str()),
            TagServerError::Valence(s) => String::from_str("Failed to build Valence: ").concat(s.as_str()),
        }
    }

    /// The low-cardinality label of this failure, for logs.
    pub fn error_kind(&self) -> (res: &'static str)
        ensures
            res@ == server_error_kind(*self),
    {
        match self {
            TagServerError::NotAuthenticated => "not_authenticated",
            TagServerError::NotFound { .. } => "not_found",
            TagServerError::AccessDenied { .. } => "access_denied",
            TagServerError::InvalidSource(_) => "invalid_source",
            TagServerError::Service { .. } => "service",
            TagServerError::Valence(_) => "valence",
        }
    }
}

/// A catalog failure and the server failure made of it display the same text.
pub proof fn lemma_server_error_keeps_text(e: TagError, s: TagServerError)
    requires
        server_error_of(e, s),
    ensures
        tag_error_displays(e, server_error_text(s)),
{
    if let TagError::Service { operation, source } = e {
        if let TagServerError::Service { message, .. } = s {
            assert(service_text(operation, message@) == server_error_text(s));
        }
    }
}

/// Server functions fail closed without a session.
pub fn require_session(session_user_id: Option<&str>) -> (res: Result<(), TagServerError>)
    ensures
        match session_user_id {
            Some(_) => res is Ok,
            None => res matches Err(TagServerError::NotAuthenticated),
        },
{
    match session_user_id {
        Some(_) => Ok(()),
        None => Err(TagServerError::NotAuthenticated),
    }
}

/// Upper bound of catalog search results for a picker.
pub const SEARCH_TAG_CATALOG_MAX: u32 = 50;

/// The number of results a picker's `limit` allows: `limit` clamped to `1..=50`.
pub open spec fn spec_search_take(limit: u32) -> int {
    if limit < 1 {
        1
    } else if limit > SEARCH_TAG_CATALOG_MAX {
        SEARCH_TAG_CATALOG_MAX as int
    } else {
        limit as int
    }
}

/// What a catalog search asks the catalog list for, and how many results it keeps.
#[derive(Debug)]
pub struct CatalogSearchPlan {
    /// Name-contains filter.
    pub search: Option<String>,
    /// Exact taxonomy filter.
    pub taxonomy: Option<String>,
    /// Number of results kept.
    pub take: usize,
}

/// Check a picker's catalog search request: every requested source must be
/// the catalog (else the first other one is refused as an invalid source);
/// blank filters are dropped and `limit` is clamped to `1..=50`.
pub fn plan_catalog_search(
    source_keys: &Vec<SearchSourceKey>,
    query: Option<String>,
    taxonomy: Option<String>,
    limit: u32,
) -> (res: Result<CatalogSearchPlan, TagServerError>)
    ensures
        match res {
            Ok(plan) => {
                &&& forall|i: int|
                    0 <= i < source_keys@.len() ==> #[trigger] source_keys@[i].id@ == source_id_text(
                        TagSearchSourceId::Catalog,
                    )
                &&& opt_view(plan.search) == non_blank_view(opt_view(query))
                &&& opt_view(plan.taxonomy) == non_blank_view(opt_view(taxonomy))
                &&& plan.take == spec_search_take(limit)
            },
            Err(e) => exists|i: int|
                0 <= i < source_keys@.len() && source_keys@[i].id@ != source_id_text(
                    TagSearchSourceId::Catalog,
                ) && (forall|j: int|
                    0 <= j < i ==> #[trigger] source_keys@[j].id@ == source_id_text(
                        TagSearchSourceId::Catalog,
                    )) && (e matches TagServerError::InvalidSource(s) && s@ == source_keys@[i].id@),
        },
{
    let catalog_id = TagSearchSourceId::Catalog.as_str();
    let mut i: usize = 0;
    while i < source_keys.len()
        invariant
            i <= source_keys@.len(),
            catalog_id@ == source_id_text(TagSearchSourceId::Catalog),
            forall|j: int| 0 <= j < i ==> #[trigger] source_keys@[j].id@ == source_id_text(
                TagSearchSourceId::Catalog,
            ),
        decreases source_keys@.len() - i,
    {
        let key = &source_keys[i];
        if !crate::text::str_eq(key.id.as_str(), catalog_id) {
            return Err(TagServerError::InvalidSource(key.id.clone()));
        }
        i = i + 1;
    }
    let take: usize = if limit < 1 {
        1
    } else if limit > SEARCH_TAG_CATALOG_MAX {
        SEARCH_TAG_CATALOG_MAX as usize
    } else {
        limit as usize
    };
    Ok(CatalogSearchPlan { search: non_blank(query), taxonomy: non_blank(taxonomy), take })
}

/// The search items of the listed catalog rows, as many as the plan keeps.
pub fn finish_catalog_search(rows: Vec<TagRowDto>, plan: &CatalogSearchPlan) -> (res: Vec<SearchSourceItem>)
    ensures
        res@.len() == if (plan.take as int) < rows@.len() {
            plan.take as int
        } else {
            rows@.len() as int
        },
        forall|i: int| 0 <= i < res@.len() ==> #[trigger] res@[i]@ == catalog_item(
            rows@[i]@,
            source_id_text(TagSearchSourceId::Catalog),
        ),
{
    let items = catalog_items_from_list(rows, TagSearchSourceId::Catalog.as_str());
    let res = take_items(items, plan.take);
    assert(crate::search_sources::items_view(res@).len() == res@.len());
    proof {
        assert forall|i: int| 0 <= i < res@.len() implies #[trigger] res@[i]@ == catalog_item(
            rows@[i]@,
            source_id_text(TagSearchSourceId::Catalog),
        ) by {
            assert(crate::search_sources::items_view(res@)[i] == res@[i]@);
            assert(crate::search_sources::items_view(items@).len() == items@.len());
            assert(crate::search_sources::items_view(items@)[i] == items@[i]@);
        }
    }
    res
}

} // verus!
