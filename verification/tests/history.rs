use tag::side_effects::history_writer::{
    actor_record, display_opt, resolve_tag_id, tag_source_id, FieldChange, MutationKind,
    TagFieldChanges, TagHistoryWriter, TagMutation, TrailRun, TrailStep,
};
use tag::types::{TagSnapshot, UtcInstant};

fn snap(id: Option<&str>, name: &str, taxonomy: Option<&str>, description: Option<&str>) -> TagSnapshot {
    TagSnapshot {
        id: id.map(String::from),
        name: name.into(),
        taxonomy: taxonomy.map(String::from),
        description: description.map(String::from),
        created_at: UtcInstant { secs: 1, nanos: 0 },
        updated_at: UtcInstant { secs: 2, nanos: 0 },
    }
}

fn mutation(kind: MutationKind, before: Option<TagSnapshot>, after: Option<TagSnapshot>, actor: Option<&str>) -> TagMutation {
    let fields = TagFieldChanges::compute(before.as_ref(), after.as_ref());
    TagMutation { kind, before, after, fields, actor: actor.map(String::from) }
}

#[test]
fn create_writes_created_row() {
    let m = mutation(MutationKind::Create, None, Some(snap(None, "Office Supplies", Some("spend"), None)), Some("u1"));
    let rows = TagHistoryWriter.on_mutation_with_tag_id(&m, Some("t1")).unwrap();
    assert_eq!(rows.len(), 1);
    let r = &rows[0];
    assert_eq!(r.field_name, "created");
    assert_eq!(r.old_value, "");
    assert_eq!(r.new_value, "Office Supplies");
    assert_eq!(r.subject_display_name.as_deref(), Some("Office Supplies"));
    assert_eq!(r.source.table, "tag");
    assert_eq!(r.source.id, "t1");
    let actor = r.actor.as_ref().unwrap();
    assert_eq!((actor.table.as_str(), actor.id.as_str()), ("user", "u1"));
}

#[test]
fn update_writes_one_row_per_changed_field() {
    let before = snap(Some("t1"), "Office", None, Some("old"));
    let after = snap(Some("t1"), "Office Supplies", Some("spend"), Some("old"));
    let m = mutation(MutationKind::Update, Some(before), Some(after), Some("u1"));
    let rows = TagHistoryWriter.on_mutation_with_tag_id(&m, Some("t1")).unwrap();
    assert_eq!(rows.len(), 2);
    assert_eq!(rows[0].field_name, "name");
    assert_eq!(rows[0].old_value, "Office");
    assert_eq!(rows[0].new_value, "Office Supplies");
    assert_eq!(rows[0].subject_display_name.as_deref(), Some("Office Supplies"));
    assert_eq!(rows[1].field_name, "taxonomy");
    assert_eq!(rows[1].old_value, "");
    assert_eq!(rows[1].new_value, "spend");
    assert_eq!(rows[1].subject_display_name, None);
}

#[test]
fn update_description_writes_description_row() {
    let before = snap(Some("t1"), "Desc Tag", None, None);
    let after = snap(Some("t1"), "Desc Tag", None, Some("Desk and office supplies"));
    let m = mutation(MutationKind::Update, Some(before), Some(after), None);
    let rows = TagHistoryWriter.on_mutation_with_tag_id(&m, Some("t1")).unwrap();
    assert_eq!(rows.len(), 1);
    assert_eq!(rows[0].field_name, "description");
    assert_eq!(rows[0].old_value, "");
    assert_eq!(rows[0].new_value, "Desk and office supplies");
    assert!(rows[0].actor.is_none());
}

#[test]
fn update_without_changes_writes_nothing() {
    let s = snap(Some("t1"), "Same", Some("x"), None);
    let m = mutation(MutationKind::Update, Some(s.clone()), Some(s), Some("u1"));
    assert!(TagHistoryWriter.on_mutation_with_tag_id(&m, Some("t1")).unwrap().is_empty());
}

#[test]
fn delete_writes_deleted_row() {
    let m = mutation(MutationKind::Delete, Some(snap(Some("t9"), "Temporary", None, None)), None, Some("u1"));
    let rows = TagHistoryWriter.on_mutation_with_tag_id(&m, Some("t9")).unwrap();
    assert_eq!(rows.len(), 1);
    assert_eq!(rows[0].field_name, "deleted");
    assert_eq!(rows[0].old_value, "");
    assert_eq!(rows[0].new_value, "Temporary");
}

#[test]
fn tag_id_falls_back_to_snapshot() {
    let m = mutation(MutationKind::Delete, Some(snap(Some("t9"), "T", None, None)), None, None);
    assert_eq!(resolve_tag_id(&m, Some("")).unwrap(), "t9");
    assert_eq!(resolve_tag_id(&m, None).unwrap(), "t9");
    assert_eq!(resolve_tag_id(&m, Some("x")).unwrap(), "x");
    let rows = TagHistoryWriter.on_mutation_with_tag_id(&m, None).unwrap();
    assert_eq!(rows[0].source.id, "t9");
}

#[test]
fn missing_tag_id_is_an_error() {
    let m = mutation(MutationKind::Create, None, Some(snap(None, "T", None, None)), None);
    let err = TagHistoryWriter.on_mutation_with_tag_id(&m, None).unwrap_err();
    assert_eq!(err.to_string(), "tag history: missing tag record id on mutation snapshot");
    // the after snapshot wins even without an id
    let m = mutation(MutationKind::Update, Some(snap(Some("b"), "T", None, None)), Some(snap(None, "U", None, None)), None);
    assert!(resolve_tag_id(&m, None).is_err());
}

#[test]
fn create_without_after_is_an_error() {
    let m = TagMutation {
        kind: MutationKind::Create,
        before: None,
        after: None,
        fields: TagFieldChanges::compute(None, None),
        actor: None,
    };
    let err = TagHistoryWriter.on_mutation_with_tag_id(&m, Some("t")).unwrap_err();
    assert_eq!(err.to_string(), "create mutation missing after snapshot");
}

#[test]
fn field_change_detection() {
    let c = FieldChange { before: Some(Some("a".to_string())), after: Some(None) };
    assert!(c.has_changed());
    let c: FieldChange<Option<String>> = FieldChange { before: Some(None), after: Some(None) };
    assert!(!c.has_changed());
    let c = FieldChange { before: None, after: Some("x".to_string()) };
    assert!(c.has_changed());
    let c = FieldChange { before: Some("x".to_string()), after: Some("x".to_string()) };
    assert!(!c.has_changed());
}

#[test]
fn small_helpers() {
    let r = tag_source_id("abc");
    assert_eq!((r.table.as_str(), r.id.as_str()), ("tag", "abc"));
    assert!(actor_record(&None).is_none());
    assert_eq!(actor_record(&Some("u".into())).unwrap().table, "user");
    assert_eq!(display_opt(None), "");
    assert_eq!(display_opt(Some(&None)), "");
    assert_eq!(display_opt(Some(&Some("v".into()))), "v");
}

#[test]
fn trail_appends_rows_in_order_and_stops_at_failure() {
    let before = snap(Some("t1"), "A", Some("x"), None);
    let after = snap(Some("t1"), "B", Some("y"), None);
    let m = mutation(MutationKind::Update, Some(before), Some(after), Some("u1"));
    let rows = TagHistoryWriter.on_mutation_with_tag_id(&m, Some("t1")).unwrap();
    assert_eq!(rows.len(), 2);

    let again = TagHistoryWriter.on_mutation_with_tag_id(&m, Some("t1")).unwrap();
    let (trail, step) = TrailRun::start(again);
    let first = match step {
        TrailStep::Append(r) => r,
        other => panic!("unexpected {other:?}"),
    };
    assert_eq!(first.field_name, "name");
    let (trail, step) = trail.step(Ok(()));
    match &step {
        TrailStep::Append(r) => assert_eq!(r.field_name, "taxonomy"),
        other => panic!("unexpected {other:?}"),
    }
    let (_, step) = trail.step(Ok(()));
    assert!(matches!(step, TrailStep::Done));

    let (trail, _) = TrailRun::start(rows);
    let (trail, step) = trail.step(Err(anyhow::Error::msg("append refused")));
    assert_eq!(trail.next, 0);
    match step {
        TrailStep::Failed(e) => assert_eq!(e.to_string(), "append refused"),
        other => panic!("unexpected {other:?}"),
    }

    let (_, step) = TrailRun::start(Vec::new());
    assert!(matches!(step, TrailStep::Done));
}
