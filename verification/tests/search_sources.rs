use tag::search_sources::{
    catalog_items_from_list, take_items, TagCatalogSearchSource, TagSearchSourceId,
};
use tag::types::{TagRowDto, UtcInstant};

#[test]
fn catalog_source_id_round_trip() {
    assert_eq!(
        TagSearchSourceId::from_source_id("tag_catalog_search_source"),
        Some(TagSearchSourceId::Catalog)
    );
}

#[test]
fn catalog_source_metadata() {
    let c = TagSearchSourceId::Catalog;
    assert_eq!(c.as_str(), "tag_catalog_search_source");
    assert_eq!(c.label(), "Tags");
    assert_eq!(c.description(), "Shared tag catalog");
    assert_eq!(TagSearchSourceId::from_source_id(c.as_str()), Some(c));
    assert_eq!(TagSearchSourceId::from_source_id("tag_catalog"), None);
    assert_eq!(TagSearchSourceId::from_source_id(""), None);
}

#[test]
fn catalog_items_from_list_maps_fields() {
    let items = catalog_items_from_list(
        vec![TagRowDto {
            id: "1".into(),
            name: "N".into(),
            taxonomy: Some("t".into()),
            description: Some("d".into()),
            owner_display: "you".into(),
            updated_at: UtcInstant { secs: chrono::Utc::now().timestamp(), nanos: 0 },
        }],
        "tag_catalog_search_source",
    );
    assert_eq!(items.len(), 1);
    assert_eq!(items[0].source_id, "tag_catalog_search_source");
    assert_eq!(items[0].id, "1");
    assert_eq!(items[0].title, "N");
    assert_eq!(items[0].description.as_deref(), Some("t"));
    assert_eq!(items[0].kind, "tag");
}

fn rows(n: usize) -> Vec<TagRowDto> {
    (0..n)
        .map(|i| TagRowDto {
            id: format!("id{i}"),
            name: format!("name{i}"),
            taxonomy: None,
            description: None,
            owner_display: "owner".into(),
            updated_at: UtcInstant { secs: i as i64, nanos: 0 },
        })
        .collect()
}

#[test]
fn take_items_keeps_prefix() {
    let items = catalog_items_from_list(rows(4), "s");
    let taken = take_items(items, 2);
    assert_eq!(taken.len(), 2);
    assert_eq!(taken[1].id, "id1");
    let items = catalog_items_from_list(rows(2), "s");
    assert_eq!(take_items(items, 10).len(), 2);
}

#[test]
fn search_source_query_term_is_trimmed() {
    let src = TagCatalogSearchSource;
    assert_eq!(src.search_term("  Searchable "), Some("Searchable".to_string()));
    assert_eq!(src.search_term(" \t\n"), None);
    assert_eq!(src.search_term(""), None);
}

#[test]
fn search_source_results_respect_max() {
    let src = TagCatalogSearchSource;
    let res = src.results(rows(5), 3);
    assert_eq!(res.len(), 3);
    assert!(res.iter().all(|i| i.source_id == "tag_catalog_search_source" && i.kind == "tag"));
    assert_eq!(src.results(rows(5), 0).len(), 0);
}
