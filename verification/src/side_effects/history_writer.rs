//! The per-field change trail of tag rows: which history rows a tag
//! mutation produces.

use crate::sys::error_from_message;
use crate::types::{clone_opt, opt_snapshot_view, opt_view, RecordRef, TagSnapshot, TagSnapshotView};
use vstd::prelude::*;
use vstd::string::StrSliceExecFns;
use vstd::string::StringExecFns;

verus! {

/// The view of a record reference: table and bare id.
pub struct RecordRefView {
    pub table: Seq<char>,
    pub id: Seq<char>,
}

impl View for RecordRef {
    type V = RecordRefView;

    open spec fn view(&self) -> RecordRefView {
        RecordRefView { table: self.table@, id: self.id@ }
    }
}

/// One row of the change trail of a tag.
#[derive(Debug)]
pub struct HistoryRow {
    /// Display name of the tag the row is about, where the row carries one.
    pub subject_display_name: Option<String>,
    /// The tag the row is about (`tag:<id>`).
    pub source: RecordRef,
    /// Changed field, or `created` / `deleted`.
    pub field_name: String,
    /// Value before the change (empty when there was none).
    pub old_value: String,
    /// Value after the change (empty when there is none).
    pub new_value: String,
    /// The user who made the change (`user:<id>`), when a user made it.
    pub actor: Option<RecordRef>,
}

/// The view of a history row.
pub struct HistoryRowView {
    pub subject_display_name: Option<Seq<char>>,
    pub source: RecordRefView,
    pub field_name: Seq<char>,
    pub old_value: Seq<char>,
    pub new_value: Seq<char>,
    pub actor: Option<RecordRefView>,
}

impl View for HistoryRow {
    type V = HistoryRowView;

    open spec fn view(&self) -> HistoryRowView {
        HistoryRowView {
            subject_display_name: opt_view(self.subject_display_name),
            source: self.source@,
            field_name: self.field_name@,
            old_value: self.old_value@,
            new_value: self.new_value@,
            actor: match self.actor {
                Some(a) => Some(a@),
                None => None,
            },
        }
    }
}

/// What happened to a tag.
#[derive(Debug, Clone, Copy, PartialEq, Eq, Structural)]
pub enum MutationKind {
    Create,
    Update,
    Delete,
}

/// The before and after values of one field of a mutated tag.
#[derive(Debug)]
pub struct FieldChange<T> {
    /// Value before the mutation (`None` when there was no row before).
    pub before: Option<T>,
    /// Value after the mutation (`None` when there is no row after).
    pub after: Option<T>,
}

/// The view of a field change.
pub struct ChangeView<T> {
    pub before: Option<T>,
    pub after: Option<T>,
}

impl<T> ChangeView<T> {
    /// A field whose value differs between the two snapshots has changed.
    pub open spec fn changed(self) -> bool {
        self.before != self.after
    }
}

/// The view of an optional optional text.
pub open spec fn opt_opt_view(o: Option<Option<String>>) -> Option<Option<Seq<char>>> {
    match o {
        Some(inner) => Some(opt_view(inner)),
        None => None,
    }
}

/// Whether two optional texts hold the same value.
pub fn opt_text_eq(a: &Option<String>, b: &Option<String>) -> (res: bool)
    ensures
        res == (opt_view(*a) == opt_view(*b)),
{
    match (a, b) {
        (Some(x), Some(y)) => x.eq(y),
        (None, None) => true,
        _ => false,
    }
}

impl View for FieldChange<String> {
    type V = ChangeView<Seq<char>>;

    open spec fn view(&self) -> ChangeView<Seq<char>> {
        ChangeView { before: opt_view(self.before), after: opt_view(self.after) }
    }
}

impl View for FieldChange<Option<String>> {
    type V = ChangeView<Option<Seq<char>>>;

    open spec fn view(&self) -> ChangeView<Option<Seq<char>>> {
        ChangeView { before: opt_opt_view(self.before), after: opt_opt_view(self.after) }
    }
}

impl FieldChange<String> {
    /// Whether the field changed.
    pub fn has_changed(&self) -> (res: bool)
        ensures
            res == self@.changed(),
    {
        !opt_text_eq(&self.before, &self.after)
    }
}

impl FieldChange<Option<String>> {
    /// Whether the field changed.
    pub fn has_changed(&self) -> (res: bool)
        ensures
            res == self@.changed(),
    {
        match (&self.before, &self.after) {
            (Some(x), Some(y)) => !opt_text_eq(x, y),
            (None, None) => false,
            _ => true,
        }
    }
}

/// The field-by-field before/after values of a tag mutation.
#[derive(Debug)]
pub struct TagFieldChanges {
    pub name: FieldChange<String>,
    pub taxonomy: FieldChange<Option<String>>,
    pub description: FieldChange<Option<String>>,
}

/// The view of a change set.
pub struct FieldsView {
    pub name: ChangeView<Seq<char>>,
    pub taxonomy: ChangeView<Option<Seq<char>>>,
    pub description: ChangeView<Option<Seq<char>>>,
}

impl View for TagFieldChanges {
    type V = FieldsView;

    open spec fn view(&self) -> FieldsView {
        FieldsView { name: self.name@, taxonomy: self.taxonomy@, description: self.description@ }
    }
}

/// The change set between two optional snapshots: each field carries its
/// value in each snapshot that exists.
pub open spec fn fields_between(before: Option<TagSnapshotView>, after: Option<TagSnapshotView>) -> FieldsView {
    FieldsView {
        name: ChangeView {
            before: match before { Some(b) => Some(b.name), None => None },
            after: match after { Some(a) => Some(a.name), None => None },
        },
        taxonomy: ChangeView {
            before: match before { Some(b) => Some(b.taxonomy), None => None },
            after: match after { Some(a) => Some(a.taxonomy), None => None },
        },
        description: ChangeView {
            before: match before { Some(b) => Some(b.description), None => None },
            after: match after { Some(a) => Some(a.description), None => None },
        },
    }
}

impl TagFieldChanges {
    /// The change set between two snapshots of a tag.
    pub fn compute(before: Option<&TagSnapshot>, after: Option<&TagSnapshot>) -> (res: Self)
        ensures
            res@ == fields_between(
                match before { Some(b) => Some(b@), None => None },
                match after { Some(a) => Some(a@), None => None },
            ),
    {
        let (nb, tb, db) = match before {
            Some(t) => (Some(t.name.clone()), Some(clone_opt(&t.taxonomy)), Some(
                clone_opt(&t.description),
            )),
            None => (None, None, None),
        };
        let (na, ta, da) = match after {
            Some(t) => (Some(t.name.clone()), Some(clone_opt(&t.taxonomy)), Some(
                clone_opt(&t.description),
            )),
            None => (None, None, None),
        };
        TagFieldChanges {
            name: FieldChange { before: nb, after: na },
            taxonomy: FieldChange { before: tb, after: ta },
            description: FieldChange { before: db, after: da },
        }
    }
}

/// A tag mutation as the change trail sees it.
#[derive(Debug)]
pub struct TagMutation {
    /// What happened.
    pub kind: MutationKind,
    /// The row before the mutation (absent for a create).
    pub before: Option<TagSnapshot>,
    /// The row after the mutation (absent for a delete).
    pub after: Option<TagSnapshot>,
    /// Field-by-field before/after values.
    pub fields: TagFieldChanges,
    /// Normalized user id of the acting user; `None` for a non-user actor.
    pub actor: Option<String>,
}

/// The view of a mutation.
pub struct MutationView {
    pub kind: MutationKind,
    pub before: Option<TagSnapshotView>,
    pub after: Option<TagSnapshotView>,
    pub fields: FieldsView,
    pub actor: Option<Seq<char>>,
}

impl View for TagMutation {
    type V = MutationView;

    open spec fn view(&self) -> MutationView {
        MutationView {
            kind: self.kind,
            before: opt_snapshot_view(self.before),
            after: opt_snapshot_view(self.after),
            fields: self.fields@,
            actor: opt_view(self.actor),
        }
    }
}

/// Appends one history row per changed field (or a single `created` /
/// `deleted` row) whenever a tag is created, updated, or deleted.
pub struct TagHistoryWriter;

/// The record of the tag with bare id `tag_id`.
pub open spec fn tag_record(tag_id: Seq<char>) -> RecordRefView {
    RecordRefView { table: "tag"@, id: tag_id }
}

/// The record of the acting user, when the actor is a user.
pub open spec fn actor_record_view(actor: Option<Seq<char>>) -> Option<RecordRefView> {
    match actor {
        Some(uid) => Some(RecordRefView { table: "user"@, id: uid }),
        None => None,
    }
}

/// `RecordId::new("tag", tag_id)`.
pub fn tag_source_id(tag_id: &str) -> (res: RecordRef)
    ensures
        res@ == tag_record(tag_id@),
{
    RecordRef { table: String::from_str("tag"), id: String::from_str(tag_id) }
}

/// The user record of the actor: `user:<normalized user id>`, or `None` for a non-user actor.
pub fn actor_record(actor: &Option<String>) -> (res: Option<RecordRef>)
    ensures
        (match res {
            Some(r) => Some(r@),
            None => None,
        }) == actor_record_view(opt_view(*actor)),
{
    match actor {
        Some(uid) => Some(RecordRef { table: String::from_str("user"), id: uid.clone() }),
        None => None,
    }
}

/// The text of an optional optional value: its inner text, or empty.
pub open spec fn spec_display_opt(value: Option<Option<Seq<char>>>) -> Seq<char> {
    match value {
        Some(Some(s)) => s,
        _ => Seq::empty(),
    }
}

/// The inner text of an optional optional value, or the empty text.
pub fn display_opt(value: Option<&Option<String>>) -> (res: String)
    ensures
        res@ == spec_display_opt(
            match value {
                Some(v) => Some(opt_view(*v)),
                None => None,
            },
        ),
{
    match value {
        Some(Some(s)) => s.clone(),
        _ => String::new(),
    }
}

/// An optional text, or the empty text.
pub open spec fn or_empty(v: Option<Seq<char>>) -> Seq<char> {
    match v {
        Some(s) => s,
        None => Seq::empty(),
    }
}

/// The tag id a mutation's history is filed under: the explicit id when it
/// is non-empty; else the non-empty id of the after snapshot (or, when there
/// is no after snapshot, of the before snapshot).
pub open spec fn spec_resolve_tag_id(m: MutationView, explicit: Option<Seq<char>>) -> Option<
    Seq<char>,
> {
    match explicit {
        Some(e) if e.len() > 0 => Some(e),
        _ => {
            let snap = if m.after is Some {
                m.after
            } else {
                m.before
            };
            match snap {
                Some(t) => match t.id {
                    Some(id) if id.len() > 0 => Some(id),
                    _ => None,
                },
                None => None,
            }
        },
    }
}

/// Message of the failure when no tag id can be resolved.
pub open spec fn missing_id_message() -> Seq<char> {
    "tag history: missing tag record id on mutation snapshot"@
}

/// Message of the failure when a create mutation has no after snapshot.
pub open spec fn missing_after_message() -> Seq<char> {
    "create mutation missing after snapshot"@
}

/// A history row about tag `id`, by `actor`.
pub open spec fn row_view(
    id: Seq<char>,
    field: Seq<char>,
    old: Seq<char>,
    new: Seq<char>,
    subject: Option<Seq<char>>,
    actor: Option<Seq<char>>,
) -> HistoryRowView {
    HistoryRowView {
        subject_display_name: subject,
        source: tag_record(id),
        field_name: field,
        old_value: old,
        new_value: new,
        actor: actor_record_view(actor),
    }
}

/// The rows an update writes: one per changed field, in the order name,
/// taxonomy, description. A name row names the new name as its subject.
pub open spec fn spec_update_rows(
    f: FieldsView,
    id: Seq<char>,
    actor: Option<Seq<char>>,
) -> Seq<HistoryRowView> {
    let name_rows = if f.name.changed() {
        seq![row_view(id, "name"@, or_empty(f.name.before), or_empty(f.name.after), f.name.after, actor)]
    } else {
        Seq::empty()
    };
    let taxonomy_rows = if f.taxonomy.changed() {
        seq![
            row_view(
                id,
                "taxonomy"@,
                spec_display_opt(f.taxonomy.before),
                spec_display_opt(f.taxonomy.after),
                None,
                actor,
            ),
        ]
    } else {
        Seq::empty()
    };
    let description_rows = if f.description.changed() {
        seq![
            row_view(
                id,
                "description"@,
                spec_display_opt(f.description.before),
                spec_display_opt(f.description.after),
                None,
                actor,
            ),
        ]
    } else {
        Seq::empty()
    };
    name_rows + taxonomy_rows + description_rows
}

/// The rows a mutation writes once its tag id is known, or `None` for a
/// create without an after snapshot.
pub open spec fn spec_mutation_rows(m: MutationView, id: Seq<char>) -> Option<Seq<HistoryRowView>> {
    let actor = m.actor;
    match m.kind {
        MutationKind::Create => match m.after {
            Some(a) => Some(seq![row_view(id, "created"@, Seq::empty(), a.name, Some(a.name), actor)]),
            None => None,
        },
        MutationKind::Update => Some(spec_update_rows(m.fields, id, actor)),
        MutationKind::Delete => {
            let before_name = match m.before {
                Some(b) => Some(b.name),
                None => None,
            };
            Some(seq![row_view(id, "deleted"@, Seq::empty(), or_empty(before_name), before_name, actor)])
        },
    }
}

/// The views of a list of rows.
pub open spec fn rows_view(rows: Seq<HistoryRow>) -> Seq<HistoryRowView> {
    rows.map_values(|r: HistoryRow| r@)
}

/// The view of an optional text slice.
pub open spec fn opt_str_view(o: Option<&str>) -> Option<Seq<char>> {
    match o {
        Some(s) => Some(s@),
        None => None,
    }
}

/// Whether `err` displays exactly `text`.
pub open spec fn displays(err: anyhow::Error, text: Seq<char>) -> bool {
    forall|s: String| vstd::string::to_string_from_display_ensures::<anyhow::Error>(&err, s) <==> s@ == text
}

/// Resolve the tag id from the mutation snapshot; callers may pass an
/// explicit id when they know it.
pub fn resolve_tag_id(mutation: &TagMutation, explicit: Option<&str>) -> (res: Result<String, anyhow::Error>)
    ensures
        match res {
            Ok(id) => spec_resolve_tag_id(mutation@, opt_str_view(explicit)) == Some(id@),
            Err(e) => spec_resolve_tag_id(mutation@, opt_str_view(explicit)) is None && displays(
                e,
                missing_id_message(),
            ),
        },
{
    if let Some(id) = explicit {
        if id.unicode_len() > 0 {
            return Ok(String::from_str(id));
        }
    }
    let snap = if mutation.after.is_some() {
        &mutation.after
    } else {
        &mutation.before
    };
    if let Some(t) = snap {
        if let Some(id) = &t.id {
            if id.as_str().unicode_len() > 0 {
                return Ok(id.clone());
            }
        }
    }
    Err(error_from_message("tag history: missing tag record id on mutation snapshot"))
}

/// One history row about `source`.
fn history_row(
    source: &RecordRef,
    field_name: &str,
    old_value: String,
    new_value: String,
    subject_display_name: Option<String>,
    actor: &Option<String>,
) -> (res: HistoryRow)
    ensures
        res@ == (HistoryRowView {
            subject_display_name: opt_view(subject_display_name),
            source: source@,
            field_name: field_name@,
            old_value: old_value@,
            new_value: new_value@,
            actor: actor_record_view(opt_view(*actor)),
        }),
{
    HistoryRow {
        subject_display_name,
        source: RecordRef { table: source.table.clone(), id: source.id.clone() },
        field_name: String::from_str(field_name),
        old_value,
        new_value,
        actor: actor_record(actor),
    }
}

impl TagHistoryWriter {
    /// The history rows of a tag mutation, in the order they are to be
    /// appended. Pass `explicit_tag_id` when the upsert/update key is known so
    /// rows are not filed under an empty source.
    pub fn on_mutation_with_tag_id(&self, mutation: &TagMutation, explicit_tag_id: Option<&str>) -> (res: Result<
        Vec<HistoryRow>,
        anyhow::Error,
    >)
        ensures
            match spec_resolve_tag_id(mutation@, opt_str_view(explicit_tag_id)) {
                None => res matches Err(e) && displays(e, missing_id_message()),
                Some(id) => match spec_mutation_rows(mutation@, id) {
                    None => res matches Err(e) && displays(e, missing_after_message()),
                    Some(rows) => res matches Ok(out) && rows_view(out@) == rows,
                },
            },
    {
        let tag_id = match resolve_tag_id(mutation, explicit_tag_id) {
            Ok(id) => id,
            Err(e) => return Err(e),
        };
        let source = tag_source_id(tag_id.as_str());
        let actor = &mutation.actor;
        let ghost id = tag_id@;
        let ghost actor_v = opt_view(*actor);
        let mut rows: Vec<HistoryRow> = Vec::new();
        match mutation.kind {
            MutationKind::Create => {
                match &mutation.after {
                    Some(after) => {
                        rows.push(
                            history_row(
                                &source,
                                "created",
                                String::new(),
                                after.name.clone(),
                                Some(after.name.clone()),
                                actor,
                            ),
                        );
                    },
                    None => {
                        return Err(error_from_message("create mutation missing after snapshot"));
                    },
                }
            },
            MutationKind::Update => {
                let fields = &mutation.fields;
                if fields.name.has_changed() {
                    let old = match &fields.name.before {
                        Some(v) => v.clone(),
                        None => String::new(),
                    };
                    let new = match &fields.name.after {
                        Some(v) => v.clone(),
                        None => String::new(),
                    };
                    rows.push(history_row(&source, "name", old, new, clone_opt(&fields.name.after), actor));
                }
                if fields.taxonomy.has_changed() {
                    let old = display_opt(fields.taxonomy.before.as_ref());
                    let new = display_opt(fields.taxonomy.after.as_ref());
                    rows.push(history_row(&source, "taxonomy", old, new, None, actor));
                }
                if fields.description.has_changed() {
                    let old = display_opt(fields.description.before.as_ref());
                    let new = display_opt(fields.description.after.as_ref());
                    rows.push(history_row(&source, "description", old, new, None, actor));
                }
                assert(rows_view(rows@) =~= spec_update_rows(mutation.fields@, id, actor_v));
            },
            MutationKind::Delete => {
                let (new, subject) = match &mutation.before {
                    Some(b) => (b.name.clone(), Some(b.name.clone())),
                    None => (String::new(), None),
                };
                rows.push(history_row(&source, "deleted", String::new(), new, subject, actor));
            },
        }
        assert(rows_view(rows@) =~= spec_mutation_rows(mutation@, id).unwrap());
        Ok(rows)
    }
}

/// A copy of a history row.
pub(crate) fn clone_row(r: &HistoryRow) -> (res: HistoryRow)
    ensures
        res@ == r@,
{
    HistoryRow {
        subject_display_name: clone_opt(&r.subject_display_name),
        source: RecordRef { table: r.source.table.clone(), id: r.source.id.clone() },
        field_name: r.field_name.clone(),
        old_value: r.old_value.clone(),
        new_value: r.new_value.clone(),
        actor: match &r.actor {
            Some(a) => Some(RecordRef { table: a.table.clone(), id: a.id.clone() }),
            None => None,
        },
    }
}


/// Where the appending of a mutation's history rows stands: `rows` in order,
/// `next` the first one not yet appended.
#[derive(Debug)]
pub struct TrailRun {
    pub rows: Vec<HistoryRow>,
    pub next: usize,
}

/// What the appending of history rows does next.
#[derive(Debug)]
pub enum TrailStep {
    /// Append this row, then report how it went.
    Append(HistoryRow),
    /// Every row was appended.
    Done,
    /// An append failed; the rows after it are not written.
    Failed(anyhow::Error),
}

/// The step that follows when the first `next` of `rows` were appended.
pub open spec fn trail_continues(rows: Seq<HistoryRowView>, next: int, step: TrailStep) -> bool {
    if next < rows.len() {
        step matches TrailStep::Append(r) && r@ == rows[next]
    } else {
        step is Done
    }
}

impl TrailRun {
    /// Begin appending `rows`, the first row first.
    pub fn start(rows: Vec<HistoryRow>) -> (res: (TrailRun, TrailStep))
        ensures
            res.0.rows@ == rows@,
            res.0.next == 0,
            trail_continues(rows_view(rows@), 0, res.1),
    {
        let first = if rows.len() > 0 {
            TrailStep::Append(clone_row(&rows[0]))
        } else {
            TrailStep::Done
        };
        (TrailRun { rows, next: 0 }, first)
    }

    /// Go on after the append of row `next` went as `appended` says: a
    /// failure stops the trail, a success moves on to the following row.
    pub fn step(self, appended: Result<(), anyhow::Error>) -> (res: (TrailRun, TrailStep))
        ensures
            res.0.rows@ == self.rows@,
            match appended {
                Err(e) => res.0.next == self.next && res.1 == TrailStep::Failed(e),
                Ok(()) => {
                    &&& res.0.next == if self.next < self.rows.len() {
                        self.next + 1
                    } else {
                        self.next as int
                    }
                    &&& trail_continues(rows_view(self.rows@), res.0.next as int, res.1)
                },
            },
    {
        match appended {
            Err(e) => (TrailRun { rows: self.rows, next: self.next }, TrailStep::Failed(e)),
            Ok(()) => {
                let next = if self.next < self.rows.len() {
                    self.next + 1
                } else {
                    self.next
                };
                let step = if next < self.rows.len() {
                    TrailStep::Append(clone_row(&self.rows[next]))
                } else {
                    TrailStep::Done
                };
                (TrailRun { rows: self.rows, next }, step)
            },
        }
    }
}

} // verus!
