use tag::search_sources::SearchSourceKey;
use tag::server::{
    finish_catalog_search, plan_catalog_search, require_session, TagServerError,
    SEARCH_TAG_CATALOG_MAX,
};
use tag::types::{TagRowDto, UtcInstant};
use tag::TagError;

#[test]
fn from_tag_error_preserves_variants() {
    let denied: TagServerError = tag::TagError::AccessDenied {
        policy: "tag::TAG_DATA_OWNER",
    }
    .into();
    assert!(matches!(
        denied,
        TagServerError::AccessDenied {
            policy: "tag::TAG_DATA_OWNER"
        }
    ));
}

#[test]
fn maps_not_found_display() {
    let msg = TagServerError::NotFound { id: "abc".into() }.message();
    assert!(msg.contains("tag not found"));
    assert!(msg.contains("abc"));
}

#[test]
fn maps_access_denied_display() {
    let msg = TagServerError::AccessDenied {
        policy: "tag::TAG_DATA_OWNER",
    }
    .message();
    assert!(msg.contains("Access denied"));
}

#[test]
fn from_tag_error_keeps_not_found_and_service_text() {
    let nf: TagServerError = TagError::not_found("x1").into();
    assert!(matches!(&nf, TagServerError::NotFound { id } if id == "x1"));
    let svc: TagServerError = TagError::service("update", anyhow::Error::msg("disk full")).into();
    match &svc {
        TagServerError::Service { operation, message } => {
            assert_eq!(*operation, "update");
            assert_eq!(message, "disk full");
        }
        other => panic!("unexpected {other:?}"),
    }
    assert_eq!(svc.message(), "tag catalog update failed: disk full");
    assert_eq!(
        svc.message(),
        TagError::service("update", anyhow::Error::msg("disk full")).message()
    );
}

#[test]
fn server_error_messages_and_kinds() {
    let cases: Vec<(TagServerError, &str, &str)> = vec![
        (TagServerError::NotAuthenticated, "Authentication required", "not_authenticated"),
        (TagServerError::NotFound { id: "a".into() }, "tag not found: a", "not_found"),
        (
            TagServerError::AccessDenied { policy: "p" },
            "Access denied by policy: p",
            "access_denied",
        ),
        (
            TagServerError::InvalidSource("other".into()),
            "unsupported search source: other",
            "invalid_source",
        ),
        (
            TagServerError::Service { operation: "list", message: "m".into() },
            "tag catalog list failed: m",
            "service",
        ),
        (
            TagServerError::Valence("no db".into()),
            "Failed to build Valence: no db",
            "valence",
        ),
    ];
    for (e, msg, kind) in cases {
        assert_eq!(e.message(), msg);
        assert_eq!(e.error_kind(), kind);
    }
}

#[test]
fn require_session_fails_closed() {
    assert!(require_session(Some("u1")).is_ok());
    assert!(matches!(require_session(None), Err(TagServerError::NotAuthenticated)));
}

fn key(id: &str) -> SearchSourceKey {
    SearchSourceKey::new(id, "label")
}

#[test]
fn catalog_search_plan_clamps_limit() {
    let plan = plan_catalog_search(&vec![], None, None, 0).unwrap();
    assert_eq!(plan.take, 1);
    let plan = plan_catalog_search(&vec![], None, None, 10).unwrap();
    assert_eq!(plan.take, 10);
    let plan = plan_catalog_search(&vec![], None, None, 1000).unwrap();
    assert_eq!(plan.take, SEARCH_TAG_CATALOG_MAX as usize);
    assert_eq!(SEARCH_TAG_CATALOG_MAX, 50);
}

#[test]
fn catalog_search_plan_drops_blank_filters() {
    let plan = plan_catalog_search(
        &vec![key("tag_catalog_search_source")],
        Some("  ".into()),
        Some(" spend ".into()),
        5,
    )
    .unwrap();
    assert_eq!(plan.search, None);
    assert_eq!(plan.taxonomy.as_deref(), Some(" spend "));
}

#[test]
fn catalog_search_plan_refuses_first_foreign_source() {
    let err = plan_catalog_search(
        &vec![key("tag_catalog_search_source"), key("other"), key("third")],
        None,
        None,
        5,
    )
    .unwrap_err();
    assert!(matches!(&err, TagServerError::InvalidSource(s) if s == "other"));
    assert_eq!(err.message(), "unsupported search source: other");
}

fn row(id: &str, name: &str, taxonomy: Option<&str>) -> TagRowDto {
    TagRowDto {
        id: id.into(),
        name: name.into(),
        taxonomy: taxonomy.map(String::from),
        description: None,
        owner_display: "you".into(),
        updated_at: UtcInstant { secs: 0, nanos: 0 },
    }
}

#[test]
fn catalog_search_keeps_planned_number_of_items() {
    let plan = plan_catalog_search(&vec![], None, None, 2).unwrap();
    let items = finish_catalog_search(
        vec![row("1", "A", Some("t")), row("2", "B", None), row("3", "C", None)],
        &plan,
    );
    assert_eq!(items.len(), 2);
    assert_eq!(items[0].id, "1");
    assert_eq!(items[0].title, "A");
    assert_eq!(items[0].description.as_deref(), Some("t"));
    assert_eq!(items[1].id, "2");
    assert_eq!(items[1].source_id, "tag_catalog_search_source");
}
