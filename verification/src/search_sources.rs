//! The tag catalog as a search source for pickers.

use crate::text::{spec_is_blank, spec_trim, trim};
use crate::types::{opt_view, TagRowDto, TagRowView};
use vstd::prelude::*;
use vstd::string::StrSliceExecFns;
use vstd::string::StringExecFns;

verus! {

/// The search sources this crate serves.
#[derive(Debug, Clone, Copy, PartialEq, Eq, Structural)]
pub enum TagSearchSourceId {
    /// The shared tag catalog.
    Catalog,
}

/// The stable id of a search source.
pub open spec fn source_id_text(s: TagSearchSourceId) -> Seq<char> {
    match s {
        TagSearchSourceId::Catalog => "tag_catalog_search_source"@,
    }
}

impl TagSearchSourceId {
    /// The stable id of the source.
    pub fn as_str(&self) -> (res: &'static str)
        ensures
            res@ == source_id_text(*self),
    {
        match self {
            TagSearchSourceId::Catalog => "tag_catalog_search_source",
        }
    }

    /// The display label of the source.
    pub fn label(&self) -> (res: &'static str)
        ensures
            res@ == "Tags"@,
    {
        match self {
            TagSearchSourceId::Catalog => "Tags",
        }
    }

    /// What the source holds.
    pub fn description(&self) -> (res: &'static str)
        ensures
            res@ == "Shared tag catalog"@,
    {
        match self {
            TagSearchSourceId::Catalog => "Shared tag catalog",
        }
    }

    /// The source whose stable id is `id`, if any.
    pub fn from_source_id(id: &str) -> (res: Option<Self>)
        ensures
            res == spec_from_source_id(id@),
    {
        if crate::text::str_eq(id, "tag_catalog_search_source") {
            Some(TagSearchSourceId::Catalog)
        } else {
            None
        }
    }
}

/// The source whose stable id is `id`, if any.
pub open spec fn spec_from_source_id(id: Seq<char>) -> Option<TagSearchSourceId> {
    if id == source_id_text(TagSearchSourceId::Catalog) {
        Some(TagSearchSourceId::Catalog)
    } else {
        None
    }
}

/// Every source is found again by its stable id.
pub proof fn lemma_source_id_round_trip(s: TagSearchSourceId)
    ensures
        spec_from_source_id(source_id_text(s)) == Some(s),
{
}

/// One result of a search source.
#[derive(Debug, Clone)]
pub struct SearchSourceItem {
    /// Stable id of the source the item came from.
    pub source_id: String,
    /// Id of the item within its source.
    pub id: String,
    /// Display title.
    pub title: String,
    /// Secondary text.
    pub description: Option<String>,
    /// Kind of item.
    pub kind: String,
}

/// The view of a search item.
pub struct SearchSourceItemView {
    pub source_id: Seq<char>,
    pub id: Seq<char>,
    pub title: Seq<char>,
    pub description: Option<Seq<char>>,
    pub kind: Seq<char>,
}

impl View for SearchSourceItem {
    type V = SearchSourceItemView;

    open spec fn view(&self) -> SearchSourceItemView {
        SearchSourceItemView {
            source_id: self.source_id@,
            id: self.id@,
            title: self.title@,
            description: opt_view(self.description),
            kind: self.kind@,
        }
    }
}

/// A search source a picker asks for: its stable id and label.
#[derive(Debug, Clone)]
pub struct SearchSourceKey {
    pub id: String,
    pub label: String,
}

impl SearchSourceKey {
    /// The key of source `id` labelled `label`.
    pub fn new(id: &str, label: &str) -> (res: Self)
        ensures
            res.id@ == id@,
            res.label@ == label@,
    {
        SearchSourceKey { id: String::from_str(id), label: String::from_str(label) }
    }
}

/// The search item of a catalog row: titled by the name, described by the taxonomy.
pub open spec fn catalog_item(row: TagRowView, source_id: Seq<char>) -> SearchSourceItemView {
    SearchSourceItemView {
        source_id,
        id: row.id,
        title: row.name,
        description: row.taxonomy,
        kind: "tag"@,
    }
}

/// The views of a list of search items.
pub open spec fn items_view(items: Seq<SearchSourceItem>) -> Seq<SearchSourceItemView> {
    items.map_values(|i: SearchSourceItem| i@)
}

/// Map catalog rows into search items tagged with `source_id`, in order.
pub fn catalog_items_from_list(rows: Vec<TagRowDto>, source_id: &str) -> (res: Vec<SearchSourceItem>)
    ensures
        res@.len() == rows@.len(),
        forall|i: int| 0 <= i < rows@.len() ==> #[trigger] res@[i]@ == catalog_item(rows@[i]@, source_id@),
{
    let mut out: Vec<SearchSourceItem> = Vec::new();
    let mut i: usize = 0;
    while i < rows.len()
        invariant
            i <= rows@.len(),
            out@.len() == i,
            forall|j: int| 0 <= j < i ==> #[trigger] out@[j]@ == catalog_item(rows@[j]@, source_id@),
        decreases rows@.len() - i,
    {
        let row = &rows[i];
        out.push(
            SearchSourceItem {
                source_id: String::from_str(source_id),
                id: row.id.clone(),
                title: row.name.clone(),
                description: crate::types::clone_opt(&row.taxonomy),
                kind: String::from_str("tag"),
            },
        );
        i = i + 1;
    }
    out
}

/// The first `n` items (all of them when there are fewer).
pub fn take_items(items: Vec<SearchSourceItem>, n: usize) -> (res: Vec<SearchSourceItem>)
    ensures
        items_view(res@) == items_view(items@).take(
            if n < items@.len() {
                n as int
            } else {
                items@.len() as int
            },
        ),
{
    let mut out: Vec<SearchSourceItem> = Vec::new();
    let mut i: usize = 0;
    let len = items.len();
    while i < len && i < n
        invariant
            len == items@.len(),
            i <= len,
            i <= n,
            out@.len() == i,
            items_view(out@) == items_view(items@).take(i as int),
        decreases len - i,
    {
        let it = &items[i];
        let item = SearchSourceItem {
            source_id: it.source_id.clone(),
            id: it.id.clone(),
            title: it.title.clone(),
            description: crate::types::clone_opt(&it.description),
            kind: it.kind.clone(),
        };
        assert(item@ == items@[i as int]@);
        let ghost before = out@;
        out.push(item);
        assert(out@ == before.push(item));
        assert(items_view(out@) =~= items_view(items@).take(i + 1)) by {
            assert(items_view(before) == items_view(items@).take(i as int));
            assert forall|j: int| 0 <= j < i + 1 implies items_view(out@)[j] == items_view(items@).take(
                i + 1,
            )[j] by {
                if j < i {
                    assert(items_view(out@)[j] == out@[j]@);
                    assert(out@[j] == before[j]);
                    assert(items_view(before)[j] == before[j]@);
                } else {
                    assert(items_view(out@)[j] == out@[j]@);
                }
            }
        }
        i = i + 1;
    }
    out
}

/// The search term of a picker query: the query without surrounding
/// whitespace, or `None` when nothing is left.
pub open spec fn spec_search_term(query_text: Seq<char>) -> Option<Seq<char>> {
    if spec_trim(query_text).len() == 0 {
        None
    } else {
        Some(spec_trim(query_text))
    }
}

/// Exposes the tag catalog to search pickers.
pub struct TagCatalogSearchSource;

impl TagCatalogSearchSource {
    /// The search term a query text asks the catalog list for.
    pub fn search_term(&self, query_text: &str) -> (res: Option<String>)
        ensures
            opt_view(res) == spec_search_term(query_text@),
    {
        let t = trim(query_text);
        if t.as_str().unicode_len() == 0 {
            None
        } else {
            Some(t)
        }
    }

    /// The search items of the listed catalog rows, at most `max_results` of them.
    pub fn results(&self, rows: Vec<TagRowDto>, max_results: u32) -> (res: Vec<SearchSourceItem>)
        ensures
            res@.len() == if (max_results as int) < rows@.len() {
                max_results as int
            } else {
                rows@.len() as int
            },
            forall|i: int| 0 <= i < res@.len() ==> #[trigger] res@[i]@ == catalog_item(
                rows@[i]@,
                source_id_text(TagSearchSourceId::Catalog),
            ),
    {
        let items = catalog_items_from_list(rows, TagSearchSourceId::Catalog.as_str());
        let res = take_items(items, max_results as usize);
        assert(items_view(res@).len() == res@.len());
        proof {
            assert forall|i: int| 0 <= i < res@.len() implies #[trigger] res@[i]@ == catalog_item(
                rows@[i]@,
                source_id_text(TagSearchSourceId::Catalog),
            ) by {
                assert(items_view(res@)[i] == res@[i]@);
                assert(items_view(items@)[i] == items@[i]@);
            }
        }
        res
    }
}

/// The picker searches by the query with its surrounding whitespace removed
/// and nothing else changed: the search term is absent exactly when the query
/// is blank (all whitespace), and otherwise it is the stretch of the query
/// left between a blank prefix and a blank suffix, beginning and ending with
/// a non-whitespace character.
pub proof fn law_search_term_is_trimmed_query(query_text: Seq<char>)
    ensures
        spec_search_term(query_text) is None <==> spec_is_blank(query_text),
        spec_search_term(query_text) matches Some(t) ==> {
            &&& t.len() > 0
            &&& !crate::text::spec_is_whitespace(t[0])
            &&& !crate::text::spec_is_whitespace(t.last())
            &&& exists|i: int, j: int|
                0 <= i <= j <= query_text.len() && #[trigger] query_text.subrange(i, j) == t
                    && spec_is_blank(query_text.subrange(0, i)) && spec_is_blank(
                    query_text.subrange(j, query_text.len() as int),
                )
        },
{
    crate::text::lemma_trim_empty_iff_blank(query_text);
    crate::text::lemma_trim_cuts(query_text);
}

/// A search term is never blank, so the catalog list keeps it as its filter.
pub proof fn lemma_search_term_not_blank(query_text: Seq<char>)
    ensures
        spec_search_term(query_text) matches Some(t) ==> !spec_is_blank(t),
{
    crate::text::lemma_trim_empty_iff_blank(query_text);
    crate::text::lemma_trim_idempotent_blank(query_text);
}

} // verus!
