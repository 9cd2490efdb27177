use tag::error::{TagError, TAG_DATA_OWNER_POLICY};

#[test]
fn display_and_source_for_variants() {
    let missing = TagError::not_found("abc");
    assert!(missing.message().contains("tag not found"));
    assert!(missing.message().contains("abc"));
    assert!(missing.source().is_none());

    let denied = TagError::access_denied("tag::TAG_DATA_OWNER");
    assert!(denied.message().contains("Access denied"));
    assert!(denied.message().contains("tag::TAG_DATA_OWNER"));
    assert!(denied.source().is_none());

    let service = TagError::service("create", anyhow::Error::msg("backend down"));
    let msg = service.message();
    assert!(msg.contains("create"));
    assert!(msg.contains("backend down"));
    assert!(service.source().is_some());
}

#[test]
fn error_messages_are_exact() {
    assert_eq!(TagError::not_found("abc").message(), "tag not found: abc");
    assert_eq!(
        TagError::access_denied(TAG_DATA_OWNER_POLICY).message(),
        "Access denied by policy: tag::TAG_DATA_OWNER"
    );
    assert_eq!(
        TagError::service("list", anyhow::Error::msg("db gone")).message(),
        "tag catalog list failed: db gone"
    );
}

#[test]
fn service_error_keeps_its_source() {
    let e = TagError::service("delete", anyhow::Error::msg("boom"));
    match &e {
        TagError::Service { operation, source } => {
            assert_eq!(*operation, "delete");
            assert_eq!(source.to_string(), "boom");
        }
        other => panic!("unexpected {other:?}"),
    }
    assert_eq!(e.source().map(|s| s.to_string()), Some("boom".to_string()));
}

#[test]
fn not_found_keeps_empty_id() {
    match TagError::not_found("") {
        TagError::NotFound { id } => assert_eq!(id, ""),
        other => panic!("unexpected {other:?}"),
    }
}
