use std::collections::HashMap;

use tag::side_effects::history_writer::HistoryRow;
use tag::service::{
    create, delete, get, list, owner_label, record_id_str, to_detail_dto_with_id, to_row_dto,
    update, CatalogRun, Effect, Event, Outcome,
};
use tag::types::{TagCreateInput, TagDetailDto, TagRowDto, TagSnapshot, TagUpdateInput, UtcInstant};
use tag::TagError;

/// An in-memory stand-in for the storage layer, answering each effect.
#[derive(Default)]
struct Store {
    rows: HashMap<String, TagSnapshot>,
    owners: HashMap<String, String>,
    history: Vec<HistoryRow>,
    effects: Vec<&'static str>,
    fail_appends: bool,
    creating_user: Option<String>,
}

impl Store {
    fn answer(&mut self, eff: Effect) -> Result<Event, Outcome> {
        match eff {
            Effect::Upsert { id, mut tag } => {
                self.effects.push("upsert");
                tag.id = Some(id.clone());
                self.rows.insert(id.clone(), tag.clone());
                if let Some(u) = &self.creating_user {
                    self.owners.insert(id, u.clone());
                }
                Ok(Event::Saved(tag))
            }
            Effect::Fetch { id } => {
                self.effects.push("fetch");
                Ok(Event::Fetched(self.rows.get(&id).cloned()))
            }
            Effect::Commit { id, patch } => {
                self.effects.push("commit");
                let row = self.rows.get_mut(&id).expect("commit of a fetched row");
                if let Some(n) = patch.name {
                    row.name = n;
                }
                if let Some(t) = patch.taxonomy {
                    row.taxonomy = Some(t);
                }
                if let Some(d) = patch.description {
                    row.description = Some(d);
                }
                row.updated_at = patch.updated_at;
                Ok(Event::Saved(row.clone()))
            }
            Effect::Append { row } => {
                self.effects.push("append");
                if self.fail_appends {
                    return Ok(Event::Failed(anyhow::Error::msg("history backend down")));
                }
                self.history.push(row);
                Ok(Event::Done)
            }
            Effect::LookupOwner { tag_id } => {
                self.effects.push("lookup");
                Ok(Event::OwnerRow(self.owners.get(&tag_id).map(|o| Some(o.clone()))))
            }
            Effect::Remove { id } => {
                self.effects.push("remove");
                self.rows.remove(&id);
                Ok(Event::Done)
            }
            Effect::Query { search, taxonomy } => {
                self.effects.push("query");
                let mut rows: Vec<TagSnapshot> = self
                    .rows
                    .values()
                    .filter(|r| search.as_ref().map_or(true, |s| r.name.contains(s.as_str())))
                    .filter(|r| taxonomy.as_ref().map_or(true, |t| r.taxonomy.as_ref() == Some(t)))
                    .cloned()
                    .collect();
                rows.sort_by(|a, b| b.updated_at.cmp(&a.updated_at));
                Ok(Event::Rows(rows))
            }
            Effect::Finish(outcome) => Err(outcome),
        }
    }

    fn drive(&mut self, start: (CatalogRun, Effect)) -> Outcome {
        let (mut run, mut eff) = start;
        loop {
            match self.answer(eff) {
                Err(outcome) => return outcome,
                Ok(event) => {
                    assert!(run.accepts_event(&event));
                    let (r, e) = run.step(event);
                    run = r;
                    eff = e;
                }
            }
        }
    }

    fn create(&mut self, name: &str, taxonomy: Option<&str>, description: Option<&str>, actor: Option<&str>) -> TagDetailDto {
        self.creating_user = actor.map(String::from);
        let input = TagCreateInput {
            name: name.into(),
            taxonomy: taxonomy.map(String::from),
            description: description.map(String::from),
        };
        match self.drive(create(input, actor.map(String::from))) {
            Outcome::Detail(d) => d,
            other => panic!("create: {other:?}"),
        }
    }

    fn list(&mut self, actor: Option<&str>, search: Option<&str>, taxonomy: Option<&str>) -> Vec<TagRowDto> {
        match self.drive(list(actor.map(String::from), search.map(String::from), taxonomy.map(String::from))) {
            Outcome::Listed(v) => v,
            other => panic!("list: {other:?}"),
        }
    }
}

const A: &str = "tag-test-user-a";
const B: &str = "tag-test-user-b";

#[test]
fn create_tag_returns_detail_happy_path() {
    let mut s = Store::default();
    let d = s.create("Contract Create", Some("spend"), Some("created by contract"), Some(A));
    assert_ne!(d.id, "");
    assert_eq!(d.id.len(), 36);
    assert_eq!(d.name, "Contract Create");
    assert_eq!(d.taxonomy.as_deref(), Some("spend"));
    assert_eq!(d.description.as_deref(), Some("created by contract"));
    assert_eq!(d.owner_display, "you");
    assert_eq!(d.created_at, d.updated_at);
    assert_eq!(s.effects, vec!["upsert", "append", "lookup"]);
    assert_eq!(s.history.len(), 1);
    assert_eq!(s.history[0].field_name, "created");
    assert_eq!(s.history[0].new_value, "Contract Create");
}

#[test]
fn create_without_user_labels_owner() {
    let mut s = Store::default();
    let d = s.create("System Tag", None, None, None);
    assert_eq!(d.owner_display, "owner");
    assert_eq!(s.effects, vec!["upsert", "append"]);
    assert!(s.history[0].actor.is_none());
}

#[test]
fn get_tag_round_trips_happy_path() {
    let mut s = Store::default();
    let created = s.create("Round Trip", None, Some("persist"), Some(A));
    let got = match s.drive(get(&created.id, Some(A.into()))) {
        Outcome::Found(Some(d)) => d,
        other => panic!("get: {other:?}"),
    };
    assert_eq!(got.id, created.id);
    assert_eq!(got.name, "Round Trip");
    assert_eq!(got.description.as_deref(), Some("persist"));
    assert_eq!(got.owner_display, "you");
}

#[test]
fn get_tag_unknown_id_is_none_sad() {
    let mut s = Store::default();
    assert!(matches!(s.drive(get("missing-tag-id-does-not-exist", Some(A.into()))), Outcome::Found(None)));
}

#[test]
fn peer_sees_owner_id_label() {
    let mut s = Store::default();
    let created = s.create("Shared Catalog", Some("spend"), None, Some(A));
    match s.drive(get(&created.id, Some(B.into()))) {
        Outcome::Found(Some(d)) => assert_eq!(d.owner_display, A),
        other => panic!("get: {other:?}"),
    }
    let rows = s.list(Some(B), None, None);
    assert!(rows.iter().any(|r| r.id == created.id && r.owner_display == A));
}

#[test]
fn update_tag_changes_fields_happy_path() {
    let mut s = Store::default();
    let created = s.create("Before", None, None, Some(A));
    s.history.clear();
    s.effects.clear();
    let input = TagUpdateInput {
        name: Some("After".into()),
        taxonomy: Some("spend".into()),
        description: Some("updated".into()),
    };
    let updated = match s.drive(update(&created.id, input, Some(A.into()))) {
        Outcome::Detail(d) => d,
        other => panic!("update: {other:?}"),
    };
    assert_eq!(updated.id, created.id);
    assert_eq!(updated.name, "After");
    assert_eq!(updated.taxonomy.as_deref(), Some("spend"));
    assert_eq!(updated.description.as_deref(), Some("updated"));
    let fields: Vec<&str> = s.history.iter().map(|r| r.field_name.as_str()).collect();
    assert_eq!(fields, vec!["name", "taxonomy", "description"]);
    assert_eq!(s.history[0].old_value, "Before");
    assert_eq!(s.history[0].new_value, "After");
    assert_eq!(s.effects, vec!["fetch", "commit", "append", "append", "append", "lookup"]);
}

#[test]
fn update_only_changed_fields_write_history() {
    let mut s = Store::default();
    let created = s.create("Tax Tag", None, None, Some(A));
    s.history.clear();
    let input = TagUpdateInput { name: None, taxonomy: Some("spend".into()), description: None };
    assert!(matches!(s.drive(update(&created.id, input, Some(A.into()))), Outcome::Detail(_)));
    assert_eq!(s.history.len(), 1);
    assert_eq!(s.history[0].field_name, "taxonomy");
    assert_eq!(s.history[0].old_value, "");
    assert_eq!(s.history[0].new_value, "spend");
}

#[test]
fn update_tag_unknown_id_not_found_sad() {
    let mut s = Store::default();
    let input = TagUpdateInput { name: Some("Nope".into()), taxonomy: None, description: None };
    match s.drive(update("missing-tag-id-does-not-exist", input, Some(A.into()))) {
        Outcome::Failed(TagError::NotFound { id }) => assert_eq!(id, "missing-tag-id-does-not-exist"),
        other => panic!("expected TagError::NotFound, got: {other:?}"),
    }
    assert_eq!(s.effects, vec!["fetch"]);
}

#[test]
fn delete_tag_removes_from_catalog_happy_path() {
    let mut s = Store::default();
    let created = s.create("Disposable", None, None, Some(A));
    s.effects.clear();
    assert!(matches!(s.drive(delete(&created.id, Some(A.into()))), Outcome::Deleted));
    assert_eq!(s.effects, vec!["fetch", "lookup", "append", "remove"]);
    assert!(!s.list(Some(A), None, None).iter().any(|r| r.id == created.id));
    let last = s.history.last().unwrap();
    assert_eq!(last.field_name, "deleted");
    assert_eq!(last.new_value, "Disposable");
}

#[test]
fn non_owner_cannot_delete_other_users_tag_sad() {
    let mut s = Store::default();
    let created = s.create("Owner Protected", None, None, Some(A));
    s.effects.clear();
    match s.drive(delete(&created.id, Some(B.into()))) {
        Outcome::Failed(TagError::AccessDenied { policy }) => assert_eq!(policy, "tag::TAG_DATA_OWNER"),
        other => panic!("expected TagError::AccessDenied, got: {other:?}"),
    }
    assert_eq!(s.effects, vec!["fetch", "lookup"]);
    assert!(s.rows.contains_key(&created.id));
}

#[test]
fn delete_of_missing_tag_is_ok() {
    let mut s = Store::default();
    assert!(matches!(s.drive(delete("nothing-here", Some(A.into()))), Outcome::Deleted));
    assert_eq!(s.effects, vec!["fetch"]);
}

#[test]
fn delete_without_ownership_row_is_denied() {
    let mut s = Store::default();
    let created = s.create("Orphan", None, None, None);
    assert!(matches!(
        s.drive(delete(&created.id, Some(A.into()))),
        Outcome::Failed(TagError::AccessDenied { .. })
    ));
    // a non-user actor skips the ownership check
    assert!(matches!(s.drive(delete(&created.id, None)), Outcome::Deleted));
}

#[test]
fn history_failure_is_a_service_error() {
    let mut s = Store::default();
    s.fail_appends = true;
    s.creating_user = Some(A.into());
    let input = TagCreateInput { name: "X".into(), taxonomy: None, description: None };
    match s.drive(create(input, Some(A.into()))) {
        Outcome::Failed(e @ TagError::Service { .. }) => {
            assert_eq!(e.message(), "tag catalog create failed: history backend down")
        }
        other => panic!("unexpected {other:?}"),
    }
}

#[test]
fn list_search_filters_by_name_happy_path() {
    let mut s = Store::default();
    s.create("Alpha Widget", Some("spend"), None, Some(A));
    s.create("Beta Gadget", Some("custom"), None, Some(A));
    let rows = s.list(Some(A), Some("Alpha"), None);
    assert_eq!(rows.len(), 1);
    assert_eq!(rows[0].name, "Alpha Widget");
    let rows = s.list(Some(A), None, Some("custom"));
    assert_eq!(rows.len(), 1);
    assert_eq!(rows[0].name, "Beta Gadget");
    // blank filters are ignored
    assert_eq!(s.list(Some(A), Some("  "), Some("")).len(), 2);
}

#[test]
fn list_tags_search_miss_empty_sad() {
    let mut s = Store::default();
    s.create("Visible Only", Some("spend"), None, Some(A));
    assert!(s.list(Some(A), Some("zzz-no-match-term"), None).is_empty());
}

#[test]
fn list_labels_every_row_in_query_order() {
    let mut s = Store::default();
    let mut ids = vec![];
    for (i, name) in ["One", "Two", "Three"].iter().enumerate() {
        let d = s.create(name, None, None, Some(if i == 1 { B } else { A }));
        s.rows.get_mut(&d.id).unwrap().updated_at = UtcInstant { secs: i as i64, nanos: 0 };
        ids.push(d.id);
    }
    let rows = s.list(Some(A), None, None);
    let names: Vec<&str> = rows.iter().map(|r| r.name.as_str()).collect();
    assert_eq!(names, vec!["Three", "Two", "One"]);
    let labels: Vec<&str> = rows.iter().map(|r| r.owner_display.as_str()).collect();
    assert_eq!(labels, vec!["you", B, "you"]);
    let anon = s.list(None, None, None);
    assert!(anon.iter().all(|r| r.owner_display == "owner"));
}

#[test]
fn owner_label_cases() {
    assert_eq!(owner_label(&None, &Some(Some("a".into()))), "owner");
    assert_eq!(owner_label(&Some("a".into()), &Some(Some("a".into()))), "you");
    assert_eq!(owner_label(&Some("a".into()), &Some(Some("b".into()))), "b");
    assert_eq!(owner_label(&Some("a".into()), &Some(None)), "owner");
    assert_eq!(owner_label(&Some("a".into()), &None), "owner");
    // an owner whose id is the text "you" is labelled "you" for everyone
    assert_eq!(owner_label(&Some("a".into()), &Some(Some("you".into()))), "you");
}

#[test]
fn dto_mapping() {
    let t = TagSnapshot {
        id: None,
        name: "N".into(),
        taxonomy: Some("t".into()),
        description: None,
        created_at: UtcInstant { secs: 5, nanos: 1 },
        updated_at: UtcInstant { secs: 7, nanos: 250 },
    };
    assert_eq!(record_id_str(&t), "");
    let d = to_detail_dto_with_id(&t, "given", "you".into());
    assert_eq!(d.id, "given");
    assert_eq!((d.created_at, d.updated_at), (UtcInstant { secs: 5, nanos: 1 }, UtcInstant { secs: 7, nanos: 250 }));
    let r = to_row_dto(&t, "owner".into());
    assert_eq!(r.id, "");
    assert_eq!(r.updated_at, UtcInstant { secs: 7, nanos: 250 });
    let t2 = TagSnapshot { id: Some("own".into()), ..t };
    assert_eq!(to_detail_dto_with_id(&t2, "given", "you".into()).id, "own");
}

#[test]
fn run_accepts_only_answers_of_the_awaited_kind() {
    let (run, eff) = get("t1", Some("u1".to_string()));
    assert!(matches!(eff, Effect::Fetch { .. }));
    assert!(run.accepts_event(&Event::Fetched(None)));
    assert!(run.accepts_event(&Event::Failed(anyhow::Error::msg("x"))));
    assert!(!run.accepts_event(&Event::Done));
    assert!(!run.accepts_event(&Event::Saved(TagSnapshot {
        id: None,
        name: "n".into(),
        taxonomy: None,
        description: None,
        created_at: UtcInstant { secs: 0, nanos: 0 },
        updated_at: UtcInstant { secs: 0, nanos: 0 },
    })));
    let (finished, _) = run.step(Event::Fetched(None));
    assert!(!finished.accepts_event(&Event::Done));
    assert!(!finished.accepts_event(&Event::Failed(anyhow::Error::msg("x"))));
}

#[test]
fn create_write_failure_is_the_create_service_error() {
    let input = TagCreateInput { name: "n".into(), taxonomy: None, description: None };
    let (run, eff) = create(input, Some("u1".to_string()));
    assert!(matches!(eff, Effect::Upsert { .. }));
    let (_, end) = run.step(Event::Failed(anyhow::Error::msg("write refused")));
    match end {
        Effect::Finish(Outcome::Failed(e @ TagError::Service { operation: "create", .. })) => {
            assert_eq!(e.message(), "tag catalog create failed: write refused");
        }
        other => panic!("unexpected {other:?}"),
    }
}

#[test]
fn create_files_the_row_under_a_fresh_v4_id() {
    let input = TagCreateInput { name: "n".into(), taxonomy: None, description: None };
    let (_, eff) = create(input, None);
    let id = match eff {
        Effect::Upsert { id, tag } => {
            assert_eq!(tag.created_at, tag.updated_at);
            assert!(tag.id.is_none());
            id
        }
        other => panic!("unexpected {other:?}"),
    };
    let chars: Vec<char> = id.chars().collect();
    assert_eq!(chars.len(), 36);
    for (i, c) in chars.iter().enumerate() {
        if [8, 13, 18, 23].contains(&i) {
            assert_eq!(*c, '-');
        } else {
            assert!(c.is_ascii_digit() || ('a'..='f').contains(c));
        }
    }
    assert_eq!(chars[14], '4');
    assert!(['8', '9', 'a', 'b'].contains(&chars[19]));
}
