use tag::search_sources::SearchSourceItem;
use tag::types::{TagDetailDto, TagRowDto, UtcInstant};
use tag::ui::{
    catalog_source_keys, create_input_from_form, detail_fetch_needed, detail_view, filters_active,
    format_updated, list_view, manage_tags_href, next_request_seq, picker_query, row_edit_test_id,
    tag_href, taxonomy_cell, title_for_id, update_input_from_form, TagDetailPageView, TagListView,
    CATALOG_LIMIT,
};

#[test]
fn create_form_drops_blank_optionals() {
    let i = create_input_from_form("Name".into(), "  ".into(), "desc".into());
    assert_eq!(i.name, "Name");
    assert_eq!(i.taxonomy, None);
    assert_eq!(i.description.as_deref(), Some("desc"));
}

#[test]
fn update_form_clears_blank_fields() {
    let i = update_input_from_form("N".into(), " ".into(), "d ".into());
    assert_eq!(i.name.as_deref(), Some("N"));
    assert_eq!(i.taxonomy.as_deref(), Some(""));
    assert_eq!(i.description.as_deref(), Some("d "));
}

#[test]
fn list_page_states() {
    assert!(filters_active(" a", ""));
    assert!(!filters_active(" ", "\t"));
    assert!(matches!(list_view(None, false), TagListView::Loading));
    assert!(matches!(list_view(Some(Err("bad".into())), false), TagListView::Failed(m) if m == "bad"));
    assert!(matches!(list_view(Some(Ok(vec![])), true), TagListView::FilteredEmpty));
    assert!(matches!(list_view(Some(Ok(vec![])), false), TagListView::Empty));
    let row = TagRowDto {
        id: "1".into(),
        name: "n".into(),
        taxonomy: None,
        description: None,
        owner_display: "you".into(),
        updated_at: UtcInstant { secs: 0, nanos: 0 },
    };
    assert!(matches!(list_view(Some(Ok(vec![row])), true), TagListView::Table(v) if v.len() == 1));
}

#[test]
fn detail_page_states() {
    assert!(!detail_fetch_needed("  "));
    assert!(detail_fetch_needed("id"));
    assert!(matches!(detail_view(" ", None), TagDetailPageView::MissingId));
    assert!(matches!(detail_view("x", None), TagDetailPageView::Loading));
    assert!(matches!(detail_view("x", Some(Ok(None))), TagDetailPageView::NotFound));
    assert!(matches!(detail_view("x", Some(Err("e".into()))), TagDetailPageView::Failed(m) if m == "e"));
    let d = TagDetailDto {
        id: "x".into(),
        name: "n".into(),
        taxonomy: None,
        description: None,
        owner_display: "you".into(),
        created_at: UtcInstant { secs: 0, nanos: 0 },
        updated_at: UtcInstant { secs: 0, nanos: 0 },
    };
    assert!(matches!(detail_view("x", Some(Ok(Some(d)))), TagDetailPageView::Editor(r) if r.id == "x"));
}

#[test]
fn row_display_helpers() {
    assert_eq!(taxonomy_cell(&None), "—");
    assert_eq!(taxonomy_cell(&Some("spend".into())), "spend");
    assert_eq!(tag_href("abc"), "/tag/abc");
    assert_eq!(row_edit_test_id("abc"), "tag-row-edit-abc");
    assert_eq!(manage_tags_href(None), "/tag");
    assert_eq!(manage_tags_href(Some("/x".into())), "/x");
}

#[test]
fn format_updated_is_utc_date() {
    let at = |secs: i64, nanos: u32| UtcInstant { secs, nanos };
    assert_eq!(format_updated(at(0, 0)).as_deref(), Some("1970-01-01"));
    assert_eq!(format_updated(at(86_399, 999_999_999)).as_deref(), Some("1970-01-01"));
    assert_eq!(format_updated(at(1_000_000_000, 555)).as_deref(), Some("2001-09-09"));
    assert_eq!(format_updated(at(-2_208_936_075, 0)).as_deref(), Some("1900-01-01"));
    assert_eq!(format_updated(at(i64::MAX, 0)), None);
    assert_eq!(format_updated(at(59, 1_500_000_000)).as_deref(), Some("1970-01-01"));
    assert_eq!(format_updated(at(0, 1_000_000_000)), None);
    assert_eq!(format_updated(at(0, 2_000_000_000)), None);
}

fn item(id: &str, title: &str) -> SearchSourceItem {
    SearchSourceItem {
        source_id: "tag_catalog_search_source".into(),
        id: id.into(),
        title: title.into(),
        description: None,
        kind: "tag".into(),
    }
}

#[test]
fn picker_titles_and_requests() {
    let opts = vec![item("1", "One"), item("2", "Two"), item("2", "Dup")];
    assert_eq!(title_for_id(&opts, "2"), "Two");
    assert_eq!(title_for_id(&opts, "9"), "9");
    assert_eq!(title_for_id(&vec![], "z"), "z");
    assert_eq!(picker_query("  ".into()), None);
    assert_eq!(picker_query("q".into()).as_deref(), Some("q"));
    assert_eq!(next_request_seq(0), 1);
    assert_eq!(next_request_seq(u32::MAX), u32::MAX);
    let keys = catalog_source_keys();
    assert_eq!(keys.len(), 1);
    assert_eq!(keys[0].id, "tag_catalog_search_source");
    assert_eq!(keys[0].label, "Tags");
    assert_eq!(CATALOG_LIMIT, 50);
}
