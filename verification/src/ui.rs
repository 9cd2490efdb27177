//! Decisions of the catalog pages and the catalog picker: what a form
//! submits, which state a page shows, and how rows are displayed.

use crate::search_sources::{SearchSourceItem, SearchSourceKey, TagSearchSourceId};
use crate::sys::{utc_calendar_date, utc_date_text};
use crate::text::{is_blank, spec_is_blank};
use crate::types::{opt_view, TagCreateInput, TagDetailDto, TagRowDto, TagUpdateInput, UtcInstant};
use vstd::prelude::*;
use vstd::string::StringExecFns;

verus! {

/// An entered text, kept only when it holds more than whitespace.
pub open spec fn spec_optional_text(value: Seq<char>) -> Option<Seq<char>> {
    if spec_is_blank(value) {
        None
    } else {
        Some(value)
    }
}

/// An entered text, kept only when it holds more than whitespace.
pub fn optional_text(value: String) -> (res: Option<String>)
    ensures
        opt_view(res) == spec_optional_text(value@),
{
    if is_blank(value.as_str()) {
        None
    } else {
        Some(value)
    }
}

/// The create form's input: the name as entered; taxonomy and description
/// only when they hold more than whitespace.
pub fn create_input_from_form(name: String, taxonomy: String, description: String) -> (res: TagCreateInput)
    ensures
        res.name@ == name@,
        opt_view(res.taxonomy) == spec_optional_text(taxonomy@),
        opt_view(res.description) == spec_optional_text(description@),
{
    TagCreateInput { name, taxonomy: optional_text(taxonomy), description: optional_text(description) }
}

/// An edited text: a blank entry clears the field (the empty text).
pub open spec fn spec_edited_text(value: Seq<char>) -> Seq<char> {
    if spec_is_blank(value) {
        Seq::empty()
    } else {
        value
    }
}

/// The detail editor's update: every field is written; a blank taxonomy or
/// description is written as the empty text.
pub fn update_input_from_form(name: String, taxonomy: String, description: String) -> (res: TagUpdateInput)
    ensures
        opt_view(res.name) == Some(name@),
        opt_view(res.taxonomy) == Some(spec_edited_text(taxonomy@)),
        opt_view(res.description) == Some(spec_edited_text(description@)),
{
    let t = if is_blank(taxonomy.as_str()) {
        String::new()
    } else {
        taxonomy
    };
    let d = if is_blank(description.as_str()) {
        String::new()
    } else {
        description
    };
    TagUpdateInput { name: Some(name), taxonomy: Some(t), description: Some(d) }
}

/// Whether the list page's filters hold anything.
pub fn filters_active(search: &str, taxonomy: &str) -> (res: bool)
    ensures
        res == (!spec_is_blank(search@) || !spec_is_blank(taxonomy@)),
{
    !is_blank(search) || !is_blank(taxonomy)
}

/// What the list page's result area shows.
#[derive(Debug)]
pub enum TagListView {
    /// The list is loading.
    Loading,
    /// Loading failed with this message.
    Failed(String),
    /// Nothing matches the active filters.
    FilteredEmpty,
    /// The catalog is empty.
    Empty,
    /// The rows.
    Table(Vec<TagRowDto>),
}

/// Which state the list page's result area shows for the load state of the
/// list (`None` while loading) and whether filters are active.
pub fn list_view(result: Option<Result<Vec<TagRowDto>, String>>, filters_active: bool) -> (res: TagListView)
    ensures
        match result {
            None => res is Loading,
            Some(Err(m)) => res matches TagListView::Failed(r) && r@ == m@,
            Some(Ok(items)) => if items@.len() == 0 {
                if filters_active {
                    res is FilteredEmpty
                } else {
                    res is Empty
                }
            } else {
                res matches TagListView::Table(t) && t == items
            },
        },
{
    match result {
        None => TagListView::Loading,
        Some(Err(m)) => TagListView::Failed(m),
        Some(Ok(items)) => {
            if items.len() == 0 {
                if filters_active {
                    TagListView::FilteredEmpty
                } else {
                    TagListView::Empty
                }
            } else {
                TagListView::Table(items)
            }
        },
    }
}

/// What the detail page shows.
#[derive(Debug)]
pub enum TagDetailPageView {
    /// The route carries no id.
    MissingId,
    /// The row is loading.
    Loading,
    /// Loading failed with this message.
    Failed(String),
    /// There is no such tag.
    NotFound,
    /// The editor for the row.
    Editor(TagDetailDto),
}

/// Whether the detail page must fetch the row for route id `id` (a blank
/// id resolves to "no row" without a fetch).
pub fn detail_fetch_needed(id: &str) -> (res: bool)
    ensures
        res == !spec_is_blank(id@),
{
    !is_blank(id)
}

/// Which state the detail page shows for route id `id` and the load state
/// of its row (`None` while loading).
pub fn detail_view(id: &str, result: Option<Result<Option<TagDetailDto>, String>>) -> (res: TagDetailPageView)
    ensures
        spec_is_blank(id@) ==> res is MissingId,
        !spec_is_blank(id@) ==> match result {
            None => res is Loading,
            Some(Err(m)) => res matches TagDetailPageView::Failed(r) && r@ == m@,
            Some(Ok(None)) => res is NotFound,
            Some(Ok(Some(row))) => res matches TagDetailPageView::Editor(r) && r == row,
        },
{
    if is_blank(id) {
        return TagDetailPageView::MissingId;
    }
    match result {
        None => TagDetailPageView::Loading,
        Some(Err(m)) => TagDetailPageView::Failed(m),
        Some(Ok(None)) => TagDetailPageView::NotFound,
        Some(Ok(Some(row))) => TagDetailPageView::Editor(row),
    }
}

/// The taxonomy cell of a list row: the taxonomy, or an em dash.
pub fn taxonomy_cell(taxonomy: &Option<String>) -> (res: String)
    ensures
        res@ == match opt_view(*taxonomy) {
            Some(t) => t,
            None => "—"@,
        },
{
    match taxonomy {
        Some(t) => t.clone(),
        None => String::from_str("—"),
    }
}

/// The page of tag `id`: `/tag/<id>`.
pub fn tag_href(id: &str) -> (res: String)
    ensures
        res@ == "/tag/"@ + id@,
{
    String::from_str("/tag/").concat(id)
}

/// The test id of a row's edit link: `tag-row-edit-<id>`.
pub fn row_edit_test_id(id: &str) -> (res: String)
    ensures
        res@ == "tag-row-edit-"@ + id@,
{
    String::from_str("tag-row-edit-").concat(id)
}

/// The updated cell of a list row: its UTC date, `YYYY-MM-DD`.
/// `None` only for an instant that no calendar date holds.
pub fn format_updated(at: UtcInstant) -> (res: Option<String>)
    ensures
        match res {
            Some(s) => utc_calendar_date(at.secs, at.nanos) == Some(s@),
            None => utc_calendar_date(at.secs, at.nanos) is None,
        },
{
    utc_date_text(at.secs, at.nanos)
}

/// Where the picker's "manage tags" link points: the given place, or `/tag`.
pub fn manage_tags_href(href: Option<String>) -> (res: String)
    ensures
        res@ == match opt_view(href) {
            Some(h) => h,
            None => "/tag"@,
        },
{
    match href {
        Some(h) => h,
        None => String::from_str("/tag"),
    }
}

/// Number of catalog options the picker asks for.
pub const CATALOG_LIMIT: u32 = 50;

/// The sources the picker asks for: the catalog only.
pub fn catalog_source_keys() -> (res: Vec<SearchSourceKey>)
    ensures
        res@.len() == 1,
        res@[0].id@ == crate::search_sources::source_id_text(TagSearchSourceId::Catalog),
        res@[0].label@ == "Tags"@,
{
    let c = TagSearchSourceId::Catalog;
    let mut v: Vec<SearchSourceKey> = Vec::new();
    v.push(SearchSourceKey::new(c.as_str(), c.label()));
    v
}

/// The title of option `id` among the loaded options: the first match's
/// title, or the id itself when no option has it.
pub open spec fn spec_title_for_id(options: Seq<SearchSourceItem>, id: Seq<char>) -> Seq<char>
    decreases options.len(),
{
    if options.len() == 0 {
        id
    } else if options[0].id@ == id {
        options[0].title@
    } else {
        spec_title_for_id(options.drop_first(), id)
    }
}

/// The title of option `id` among the loaded options.
pub fn title_for_id(options: &Vec<SearchSourceItem>, id: &str) -> (res: String)
    ensures
        res@ == spec_title_for_id(options@, id@),
{
    let n = options.len();
    let mut i: usize = 0;
    assert(options@.subrange(0, n as int) =~= options@);
    while i < n
        invariant
            n == options@.len(),
            i <= n,
            spec_title_for_id(options@, id@) == spec_title_for_id(options@.subrange(i as int, n as int), id@),
        decreases n - i,
    {
        assert(options@.subrange(i as int, n as int)[0] == options@[i as int]);
        if crate::text::str_eq(options[i].id.as_str(), id) {
            return options[i].title.clone();
        }
        assert(options@.subrange(i as int, n as int).drop_first() =~= options@.subrange(i + 1, n as int));
        i = i + 1;
    }
    String::from_str(id)
}

/// The picker's query argument: the typed query, or `None` when blank.
pub fn picker_query(query: String) -> (res: Option<String>)
    ensures
        opt_view(res) == spec_optional_text(query@),
{
    optional_text(query)
}

/// The id of the picker's next catalog request (saturating).
pub fn next_request_seq(current: u32) -> (res: u32)
    ensures
        res == if current == u32::MAX {
            current
        } else {
            (current + 1) as u32
        },
{
    current.saturating_add(1)
}

} // verus!
