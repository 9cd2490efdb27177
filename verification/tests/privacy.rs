use tag::privacy_policies::{owner_matches, PolicyStep, TagDataOwner, TAG_DATA_OWNER};

#[test]
fn policy_metadata() {
    assert_eq!(TAG_DATA_OWNER.name(), "tag::TAG_DATA_OWNER");
    assert_eq!(
        TagDataOwner.description(),
        Some("Allow when valence_data_ownership owner matches the actor user")
    );
}

#[test]
fn policy_refuses_without_user_or_record() {
    assert!(matches!(TAG_DATA_OWNER.evaluate(None, Some("r".into())), PolicyStep::Decided(false)));
    assert!(matches!(TAG_DATA_OWNER.evaluate(Some("u".into()), None), PolicyStep::Decided(false)));
    match TAG_DATA_OWNER.evaluate(Some("u".into()), Some("r".into())) {
        PolicyStep::LookupOwnership { actor, record } => {
            assert_eq!(actor, "u");
            assert_eq!(record, "r");
        }
        other => panic!("unexpected {other:?}"),
    }
}

#[test]
fn policy_verdict_requires_owner_match() {
    assert!(TAG_DATA_OWNER.verdict("u", &Some(Some("u".into()))));
    assert!(!TAG_DATA_OWNER.verdict("u", &Some(Some("v".into()))));
    assert!(!TAG_DATA_OWNER.verdict("u", &Some(None)));
    assert!(!TAG_DATA_OWNER.verdict("u", &None));
    assert!(owner_matches("a", &Some(Some("a".into()))));
}
