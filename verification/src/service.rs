//! Catalog operations: create, update, delete, get and list tags.
//!
//! Each operation is a run of steps. A step takes what the storage layer
//! answered and decides what it must do next: fetch, write, append a history
//! row, look up ownership, or finish with the operation's outcome.

use crate::error::{TagError, TAG_DATA_OWNER_POLICY};
use crate::side_effects::history_writer::{
    displays, fields_between, missing_after_message, missing_id_message, or_empty, rows_view,
    spec_mutation_rows, spec_resolve_tag_id, clone_row, HistoryRow, MutationKind, MutationView,
};
use crate::privacy_policies::{owner_matches, owner_row_view, owns};
use crate::types::{clone_opt, opt_view, TagDetailDto, TagDetailView, TagRowDto, TagRowView, TagSnapshot, TagSnapshotView};
use crate::side_effects::history_writer::{TagFieldChanges, TagHistoryWriter, TagMutation};
use crate::sys::{is_v4_uuid_text, new_record_id, now_utc};
use crate::text::{non_blank, non_blank_view};
use crate::types::{clone_snapshot, RecordRef, TagCreateInput, TagUpdateInput, UtcInstant};
use vstd::prelude::*;
use vstd::string::StrSliceExecFns;
use vstd::string::StringExecFns;

verus! {

/// The owner label of a row: `"you"` when the acting user owns it, the
/// owner's id when someone else does, and `"owner"` when there is no user
/// actor, no ownership row, or no owner in it.
pub open spec fn spec_owner_label(actor: Option<Seq<char>>, row: Option<Option<Seq<char>>>) -> Seq<char> {
    match actor {
        None => "owner"@,
        Some(a) => match row {
            Some(Some(o)) => if o == a {
                "you"@
            } else {
                o
            },
            _ => "owner"@,
        },
    }
}

/// The owner label of a row for the acting user, given the ownership row
/// that was found (`None` when none was found or the lookup failed).
pub fn owner_label(actor: &Option<String>, row: &Option<Option<String>>) -> (res: String)
    ensures
        res@ == spec_owner_label(opt_view(*actor), owner_row_view(*row)),
{
    match actor {
        None => String::from_str("owner"),
        Some(a) => match row {
            Some(Some(o)) => {
                if owner_matches(a.as_str(), row) {
                    String::from_str("you")
                } else {
                    o.clone()
                }
            },
            _ => String::from_str("owner"),
        },
    }
}

/// The bare id stored in a row, or the empty text when it has none.
pub open spec fn spec_record_id(t: TagSnapshotView) -> Seq<char> {
    or_empty(t.id)
}

/// The bare id stored in a row, or the empty text when it has none.
pub fn record_id_str(tag: &TagSnapshot) -> (res: String)
    ensures
        res@ == spec_record_id(tag@),
{
    match &tag.id {
        Some(id) => id.clone(),
        None => String::new(),
    }
}

/// The list row of a stored row.
pub open spec fn spec_row_dto(t: TagSnapshotView, owner: Seq<char>) -> TagRowView {
    TagRowView {
        id: spec_record_id(t),
        name: t.name,
        taxonomy: t.taxonomy,
        description: t.description,
        owner_display: owner,
        updated_at: t.updated_at,
    }
}

/// The detail row of a stored row, filed under `id` when the row carries no id.
pub open spec fn spec_detail_dto(t: TagSnapshotView, id: Seq<char>, owner: Seq<char>) -> TagDetailView {
    TagDetailView {
        id: if spec_record_id(t).len() == 0 {
            id
        } else {
            spec_record_id(t)
        },
        name: t.name,
        taxonomy: t.taxonomy,
        description: t.description,
        owner_display: owner,
        created_at: t.created_at,
        updated_at: t.updated_at,
    }
}

/// The list row of a stored row.
pub fn to_row_dto(tag: &TagSnapshot, owner_display: String) -> (res: TagRowDto)
    ensures
        res@ == spec_row_dto(tag@, owner_display@),
        res.name@ == tag.name@,
        opt_view(res.taxonomy) == opt_view(tag.taxonomy),
        opt_view(res.description) == opt_view(tag.description),
        res.updated_at == tag.updated_at,
        res.owner_display@ == owner_display@,
        res.id@ == match tag.id {
            Some(i) => i@,
            None => Seq::empty(),
        },
{
    TagRowDto {
        id: record_id_str(tag),
        name: tag.name.clone(),
        taxonomy: clone_opt(&tag.taxonomy),
        description: clone_opt(&tag.description),
        owner_display,
        updated_at: tag.updated_at,
    }
}

/// The detail row of a stored row, with the id it carries.
pub fn to_detail_dto(tag: &TagSnapshot, owner_display: String) -> (res: TagDetailDto)
    ensures
        res@ == spec_detail_dto(tag@, spec_record_id(tag@), owner_display@),
        res.name@ == tag.name@,
        opt_view(res.taxonomy) == opt_view(tag.taxonomy),
        opt_view(res.description) == opt_view(tag.description),
        res.created_at == tag.created_at,
        res.updated_at == tag.updated_at,
        res.owner_display@ == owner_display@,
        res.id@ == match tag.id {
            Some(i) => i@,
            None => Seq::empty(),
        },
{
    TagDetailDto {
        id: record_id_str(tag),
        name: tag.name.clone(),
        taxonomy: clone_opt(&tag.taxonomy),
        description: clone_opt(&tag.description),
        owner_display,
        created_at: tag.created_at,
        updated_at: tag.updated_at,
    }
}

/// The detail row of a stored row, filed under `id` when the row carries no id.
pub fn to_detail_dto_with_id(tag: &TagSnapshot, id: &str, owner_display: String) -> (res: TagDetailDto)
    ensures
        res@ == spec_detail_dto(tag@, id@, owner_display@),
{
    let mut dto = to_detail_dto(tag, owner_display);
    if dto.id.as_str().unicode_len() == 0 {
        dto.id = String::from_str(id);
    }
    dto
}

/// The fields an update writes: each `Some` field is set, and the update
/// time is always set.
#[derive(Debug)]
pub struct TagPatch {
    pub name: Option<String>,
    pub taxonomy: Option<String>,
    pub description: Option<String>,
    pub updated_at: UtcInstant,
}

/// What a run must do next.
#[derive(Debug)]
pub enum Effect {
    /// Write the new row `tag` under `id`; answer `Saved` with the stored row.
    Upsert { id: String, tag: TagSnapshot },
    /// Read the row `id`; answer `Fetched`.
    Fetch { id: String },
    /// Apply `patch` to the row `id`; answer `Saved` with the stored row.
    Commit { id: String, patch: TagPatch },
    /// Append `row` to the change trail; answer `Done`.
    Append { row: HistoryRow },
    /// Look up the ownership row of the tag `tag_id`; answer `OwnerRow`.
    LookupOwner { tag_id: String },
    /// Delete the row `id`; answer `Done`.
    Remove { id: String },
    /// List rows whose name contains `search` and whose taxonomy equals
    /// `taxonomy` (each where given), most recently updated first; answer `Rows`.
    Query { search: Option<String>, taxonomy: Option<String> },
    /// The run is over.
    Finish(Outcome),
}

/// What the storage layer answered to the last effect.
#[derive(Debug)]
pub enum Event {
    Fetched(Option<TagSnapshot>),
    Saved(TagSnapshot),
    /// The ownership row found: see `owner_row_view`.
    OwnerRow(Option<Option<String>>),
    Done,
    Rows(Vec<TagSnapshot>),
    Failed(anyhow::Error),
}

/// How a run ends.
#[derive(Debug)]
pub enum Outcome {
    /// `create` and `update`: the row written.
    Detail(TagDetailDto),
    /// `delete`: done.
    Deleted,
    /// `get`: the row, when there is one.
    Found(Option<TagDetailDto>),
    /// `list`: the rows.
    Listed(Vec<TagRowDto>),
    /// Any operation: the failure.
    Failed(TagError),
}

/// What follows the history rows of a mutation.
#[derive(Debug)]
pub enum AfterHistory {
    /// Label the owner of `tag` and answer its detail row.
    Detail { tag: TagSnapshot },
    /// Delete the row.
    Remove,
}

/// Where a run stands.
#[derive(Debug)]
#[allow(inconsistent_fields)]
pub enum Phase {
    Creating { id: String },
    FetchingForUpdate { id: String, input: crate::types::TagUpdateInput, now: UtcInstant },
    Committing { id: String, before: TagSnapshot },
    FetchingForDelete { id: String },
    CheckingOwner { id: String, before: TagSnapshot },
    Removing { id: String },
    FetchingForGet { id: String },
    Querying,
    LabelingRows { rows: Vec<TagSnapshot>, out: Vec<TagRowDto> },
    AppendingHistory {
        operation: &'static str,
        id: String,
        rows: Vec<HistoryRow>,
        next: usize,
        then: AfterHistory,
    },
    LabelingDetail { id: String, tag: TagSnapshot, found: bool },
    Finished,
}

/// One catalog operation in progress, on behalf of `actor` (the normalized
/// user id of the acting user, `None` for a non-user actor).
#[derive(Debug)]
pub struct CatalogRun {
    pub actor: Option<String>,
    pub phase: Phase,
}

/// A run that has ended.
pub open spec fn ended(post: CatalogRun, actor: Option<String>) -> bool {
    post.phase is Finished && post.actor == actor
}

/// `e` is the `Service` failure of operation `op` caused by `source`.
pub open spec fn is_service_error(e: TagError, op: &'static str, source: anyhow::Error) -> bool {
    e == (TagError::Service { operation: op, source })
}

/// The run ends in the `Service` failure of `op` caused by `source`.
pub open spec fn ends_in_service_error(eff: Effect, op: &'static str, source: anyhow::Error) -> bool {
    eff matches Effect::Finish(Outcome::Failed(e)) && is_service_error(e, op, source)
}

/// The run ends in the `Service` failure of `op` whose source displays `text`.
pub open spec fn ends_in_history_error(eff: Effect, op: &'static str, text: Seq<char>) -> bool {
    eff matches Effect::Finish(Outcome::Failed(TagError::Service { operation, source }))
        && operation == op && displays(source, text)
}

/// The run ends with the detail row of `tag` (filed under `id`, owner labelled
/// `label`): as `get`'s found row when `found`, else as a write's result.
pub open spec fn ends_with_detail(
    eff: Effect,
    tag: TagSnapshotView,
    id: Seq<char>,
    label: Seq<char>,
    found: bool,
) -> bool {
    if found {
        eff matches Effect::Finish(Outcome::Found(Some(d))) && d@ == spec_detail_dto(tag, id, label)
    } else {
        eff matches Effect::Finish(Outcome::Detail(d)) && d@ == spec_detail_dto(tag, id, label)
    }
}

/// Label the owner of `tag` and finish with its detail row: a user actor
/// needs the ownership row of `id` first; any other actor gets `"owner"`.
pub open spec fn labels_detail(
    actor: Option<String>,
    id: Seq<char>,
    tag: TagSnapshotView,
    found: bool,
    post: CatalogRun,
    eff: Effect,
) -> bool {
    match actor {
        Some(_) => {
            &&& post.actor == actor
            &&& post.phase matches Phase::LabelingDetail { id: i, tag: t, found: f } && i@ == id && t@
                == tag && f == found
            &&& eff matches Effect::LookupOwner { tag_id } && tag_id@ == id
        },
        None => ended(post, actor) && ends_with_detail(eff, tag, id, "owner"@, found),
    }
}

/// What follows the history rows: the detail row, or the removal of `id`.
pub open spec fn continues_after_history(
    actor: Option<String>,
    id: Seq<char>,
    then: AfterHistory,
    post: CatalogRun,
    eff: Effect,
) -> bool {
    match then {
        AfterHistory::Detail { tag } => labels_detail(actor, id, tag@, false, post, eff),
        AfterHistory::Remove => {
            &&& post.actor == actor
            &&& post.phase matches Phase::Removing { id: i } && i@ == id
            &&& eff matches Effect::Remove { id: r } && r@ == id
        },
    }
}

/// Write the change trail of mutation `m` of tag `id` for operation `op`,
/// one row per effect, then go on with `then`; a mutation whose rows cannot
/// be made ends the run with a `Service` failure.
pub open spec fn writes_history(
    actor: Option<String>,
    op: &'static str,
    id: Seq<char>,
    m: MutationView,
    then: AfterHistory,
    post: CatalogRun,
    eff: Effect,
) -> bool {
    match spec_resolve_tag_id(m, Some(id)) {
        None => ended(post, actor) && ends_in_history_error(eff, op, missing_id_message()),
        Some(rid) => match spec_mutation_rows(m, rid) {
            None => ended(post, actor) && ends_in_history_error(eff, op, missing_after_message()),
            Some(rows) => if rows.len() > 0 {
                &&& post.actor == actor
                &&& post.phase matches Phase::AppendingHistory {
                    operation,
                    id: i,
                    rows: r,
                    next,
                    then: t,
                } && operation == op && i@ == id && rows_view(r@) == rows && next == 0 && t == then
                &&& eff matches Effect::Append { row } && row@ == rows[0]
            } else {
                continues_after_history(actor, id, then, post, eff)
            },
        },
    }
}

/// The mutation that creating `created` is.
pub open spec fn create_mutation(created: TagSnapshotView, actor: Option<String>) -> MutationView {
    MutationView {
        kind: MutationKind::Create,
        before: None,
        after: Some(created),
        fields: fields_between(None, Some(created)),
        actor: opt_view(actor),
    }
}

/// The mutation that updating `before` into `after` is.
pub open spec fn update_mutation(
    before: TagSnapshotView,
    after: TagSnapshotView,
    actor: Option<String>,
) -> MutationView {
    MutationView {
        kind: MutationKind::Update,
        before: Some(before),
        after: Some(after),
        fields: fields_between(Some(before), Some(after)),
        actor: opt_view(actor),
    }
}

/// The mutation that deleting `before` is.
pub open spec fn delete_mutation(before: TagSnapshotView, actor: Option<String>) -> MutationView {
    MutationView {
        kind: MutationKind::Delete,
        before: Some(before),
        after: None,
        fields: fields_between(Some(before), None),
        actor: opt_view(actor),
    }
}

/// The views of a list of list rows.
pub open spec fn row_dtos_view(rows: Seq<TagRowDto>) -> Seq<TagRowView> {
    rows.map_values(|r: TagRowDto| r@)
}

/// Label the owner of row `out.len()` of `rows` with `label`; finish with
/// the list when it was the last row, else look up the next row's owner.
pub open spec fn labels_row(
    actor: Option<String>,
    rows: Vec<TagSnapshot>,
    out: Vec<TagRowDto>,
    label: Seq<char>,
    post: CatalogRun,
    eff: Effect,
) -> bool {
    let k = out@.len();
    let labelled = row_dtos_view(out@).push(spec_row_dto(rows@[k as int]@, label));
    if k + 1 == rows@.len() {
        &&& ended(post, actor)
        &&& eff matches Effect::Finish(Outcome::Listed(v)) && row_dtos_view(v@) == labelled
    } else {
        &&& post.actor == actor
        &&& post.phase matches Phase::LabelingRows { rows: r, out: o } && r == rows && row_dtos_view(
            o@,
        ) == labelled
        &&& eff matches Effect::LookupOwner { tag_id } && tag_id@ == spec_record_id(
            rows@[k + 1 as int]@,
        )
    }
}

/// Answer the rows a query found: with no rows, or no user actor, finish at
/// once (every owner labelled `"owner"`); otherwise label them one by one.
pub open spec fn lists(actor: Option<String>, rows: Vec<TagSnapshot>, post: CatalogRun, eff: Effect) -> bool {
    if rows@.len() == 0 || actor is None {
        &&& ended(post, actor)
        &&& eff matches Effect::Finish(Outcome::Listed(v)) && v@.len() == rows@.len() && forall|i: int|
            0 <= i < rows@.len() ==> #[trigger] v@[i]@ == spec_row_dto(rows@[i]@, "owner"@)
    } else {
        &&& post.actor == actor
        &&& post.phase matches Phase::LabelingRows { rows: r, out } && r == rows && out@.len() == 0
        &&& eff matches Effect::LookupOwner { tag_id } && tag_id@ == spec_record_id(rows@[0]@)
    }
}

/// The patch of an update: the fields of `input`, and `now` as update time.
pub open spec fn patch_of(patch: TagPatch, input: crate::types::TagUpdateInput, now: UtcInstant) -> bool {
    &&& opt_view(patch.name) == opt_view(input.name)
    &&& opt_view(patch.taxonomy) == opt_view(input.taxonomy)
    &&& opt_view(patch.description) == opt_view(input.description)
    &&& patch.updated_at == now
}

impl CatalogRun {
    /// Well-formedness: pending indices lie inside their lists, and the
    /// ownership steps only happen for a user actor.
    pub open spec fn wf(self) -> bool {
        match self.phase {
            Phase::AppendingHistory { rows, next, .. } => next < rows@.len(),
            Phase::LabelingRows { rows, out } => {
                &&& out@.len() < rows@.len()
                &&& self.actor is Some
                &&& forall|i: int| 0 <= i < out@.len() ==> #[trigger] out@[i]@ == spec_row_dto(
                    rows@[i]@,
                    out@[i]@.owner_display,
                )
            },
            Phase::CheckingOwner { .. } => self.actor is Some,
            Phase::LabelingDetail { .. } => self.actor is Some,
            _ => true,
        }
    }

    /// The answers that fit the effect the run is waiting on.
    pub open spec fn accepts(self, ev: Event) -> bool {
        match self.phase {
            Phase::Creating { .. } | Phase::Committing { .. } => ev is Saved || ev is Failed,
            Phase::FetchingForUpdate { .. } | Phase::FetchingForDelete { .. } | Phase::FetchingForGet {
                ..
            } => ev is Fetched || ev is Failed,
            Phase::CheckingOwner { .. } | Phase::LabelingRows { .. } | Phase::LabelingDetail {
                ..
            } => ev is OwnerRow || ev is Failed,
            Phase::Removing { .. } | Phase::AppendingHistory { .. } => ev is Done || ev is Failed,
            Phase::Querying => ev is Rows || ev is Failed,
            Phase::Finished => false,
        }
    }
}

impl CatalogRun {
    /// Whether `ev` is an answer that fits the effect the run is waiting on;
    /// `step` may only be given such an answer.
    pub fn accepts_event(&self, ev: &Event) -> (res: bool)
        ensures
            res == self.accepts(*ev),
    {
        let failed = matches!(ev, Event::Failed(_));
        match &self.phase {
            Phase::Creating { .. } | Phase::Committing { .. } => failed || matches!(ev, Event::Saved(_)),
            Phase::FetchingForUpdate { .. } | Phase::FetchingForDelete { .. } | Phase::FetchingForGet {
                ..
            } => failed || matches!(ev, Event::Fetched(_)),
            Phase::CheckingOwner { .. } | Phase::LabelingRows { .. } | Phase::LabelingDetail {
                ..
            } => failed || matches!(ev, Event::OwnerRow(_)),
            Phase::Removing { .. } | Phase::AppendingHistory { .. } => failed || matches!(ev, Event::Done),
            Phase::Querying => failed || matches!(ev, Event::Rows(_)),
            Phase::Finished => false,
        }
    }
}

/// One step of a run: from where the run stands (`pre`) and what the storage
/// layer answered (`ev`), where it goes (`post`) and what it does next (`eff`).
pub open spec fn step_spec(pre: CatalogRun, ev: Event, post: CatalogRun, eff: Effect) -> bool {
    let actor = pre.actor;
    match pre.phase {
        Phase::Creating { id } => match ev {
            Event::Saved(created) => writes_history(
                actor,
                "create",
                id@,
                create_mutation(created@, actor),
                AfterHistory::Detail { tag: created },
                post,
                eff,
            ),
            Event::Failed(e) => ended(post, actor) && ends_in_service_error(eff, "create", e),
            _ => false,
        },
        Phase::FetchingForUpdate { id, input, now } => match ev {
            Event::Fetched(None) => {
                &&& ended(post, actor)
                &&& eff matches Effect::Finish(Outcome::Failed(TagError::NotFound { id: i })) && i@ == id@
            },
            Event::Fetched(Some(before)) => {
                &&& post.actor == actor
                &&& post.phase matches Phase::Committing { id: i, before: b } && i == id && b == before
                &&& eff matches Effect::Commit { id: i, patch } && i@ == id@ && patch_of(patch, input, now)
            },
            Event::Failed(e) => ended(post, actor) && ends_in_service_error(eff, "update", e),
            _ => false,
        },
        Phase::Committing { id, before } => match ev {
            Event::Saved(updated) => writes_history(
                actor,
                "update",
                id@,
                update_mutation(before@, updated@, actor),
                AfterHistory::Detail { tag: updated },
                post,
                eff,
            ),
            Event::Failed(e) => ended(post, actor) && ends_in_service_error(eff, "update", e),
            _ => false,
        },
        Phase::FetchingForDelete { id } => match ev {
            Event::Fetched(None) => ended(post, actor) && eff matches Effect::Finish(Outcome::Deleted),
            Event::Fetched(Some(before)) => match actor {
                None => writes_history(
                    actor,
                    "delete",
                    id@,
                    delete_mutation(before@, actor),
                    AfterHistory::Remove,
                    post,
                    eff,
                ),
                Some(_) => {
                    &&& post.actor == actor
                    &&& post.phase matches Phase::CheckingOwner { id: i, before: b } && i == id && b
                        == before
                    &&& eff matches Effect::LookupOwner { tag_id } && tag_id@ == id@
                },
            },
            Event::Failed(e) => ended(post, actor) && ends_in_service_error(eff, "delete", e),
            _ => false,
        },
        Phase::CheckingOwner { id, before } => match ev {
            Event::OwnerRow(row) => if owns(actor.unwrap()@, owner_row_view(row)) {
                writes_history(
                    actor,
                    "delete",
                    id@,
                    delete_mutation(before@, actor),
                    AfterHistory::Remove,
                    post,
                    eff,
                )
            } else {
                &&& ended(post, actor)
                &&& eff matches Effect::Finish(Outcome::Failed(TagError::AccessDenied { policy }))
                    && policy == TAG_DATA_OWNER_POLICY
            },
            Event::Failed(e) => ended(post, actor) && ends_in_service_error(eff, "delete", e),
            _ => false,
        },
        Phase::Removing { .. } => match ev {
            Event::Done => ended(post, actor) && eff matches Effect::Finish(Outcome::Deleted),
            Event::Failed(e) => ended(post, actor) && ends_in_service_error(eff, "delete", e),
            _ => false,
        },
        Phase::FetchingForGet { id } => match ev {
            Event::Fetched(None) => ended(post, actor) && eff matches Effect::Finish(
                Outcome::Found(None),
            ),
            Event::Fetched(Some(tag)) => labels_detail(actor, id@, tag@, true, post, eff),
            Event::Failed(e) => ended(post, actor) && ends_in_service_error(eff, "get", e),
            _ => false,
        },
        Phase::Querying => match ev {
            Event::Rows(rows) => lists(actor, rows, post, eff),
            Event::Failed(e) => ended(post, actor) && ends_in_service_error(eff, "list", e),
            _ => false,
        },
        Phase::LabelingRows { rows, out } => match ev {
            Event::OwnerRow(row) => labels_row(
                actor,
                rows,
                out,
                spec_owner_label(opt_view(actor), owner_row_view(row)),
                post,
                eff,
            ),
            Event::Failed(_) => labels_row(
                actor,
                rows,
                out,
                spec_owner_label(opt_view(actor), None),
                post,
                eff,
            ),
            _ => false,
        },
        Phase::LabelingDetail { id, tag, found } => match ev {
            Event::OwnerRow(row) => ended(post, actor) && ends_with_detail(
                eff,
                tag@,
                id@,
                spec_owner_label(opt_view(actor), owner_row_view(row)),
                found,
            ),
            Event::Failed(_) => ended(post, actor) && ends_with_detail(
                eff,
                tag@,
                id@,
                spec_owner_label(opt_view(actor), None),
                found,
            ),
            _ => false,
        },
        Phase::AppendingHistory { operation, id, rows, next, then } => match ev {
            Event::Done => if next + 1 < rows@.len() {
                &&& post.actor == actor
                &&& post.phase matches Phase::AppendingHistory {
                    operation: o,
                    id: i,
                    rows: r,
                    next: n,
                    then: t,
                } && o == operation && i == id && r == rows && n == next + 1 && t == then
                &&& eff matches Effect::Append { row } && row@ == rows@[next + 1]@
            } else {
                continues_after_history(actor, id@, then, post, eff)
            },
            Event::Failed(e) => ended(post, actor) && ends_in_service_error(eff, operation, e),
            _ => false,
        },
        Phase::Finished => false,
    }
}

/// `effs` is what a run starting at `pre` does when the storage layer
/// answers `evs`, one effect per answer.
pub open spec fn trace(pre: CatalogRun, evs: Seq<Event>, effs: Seq<Effect>) -> bool
    decreases evs.len(),
{
    &&& effs.len() == evs.len()
    &&& evs.len() > 0 ==> exists|mid: CatalogRun|
        #![trigger step_spec(pre, evs[0], mid, effs[0])]
        pre.accepts(evs[0]) && step_spec(pre, evs[0], mid, effs[0]) && trace(
            mid,
            evs.drop_first(),
            effs.drop_first(),
        )
}

/// End the run with the `Service` failure of `op` caused by `e`.
fn fail_service(actor: Option<String>, op: &'static str, e: anyhow::Error) -> (res: (CatalogRun, Effect))
    ensures
        ended(res.0, actor),
        ends_in_service_error(res.1, op, e),
        res.0.wf(),
{
    (CatalogRun { actor, phase: Phase::Finished }, Effect::Finish(Outcome::Failed(TagError::service(op, e))))
}

/// The detail row of `tag`, as `get`'s found row when `found`.
fn detail_outcome(tag: &TagSnapshot, id: &str, label: String, found: bool) -> (res: Effect)
    ensures
        ends_with_detail(res, tag@, id@, label@, found),
{
    let dto = to_detail_dto_with_id(tag, id, label);
    if found {
        Effect::Finish(Outcome::Found(Some(dto)))
    } else {
        Effect::Finish(Outcome::Detail(dto))
    }
}

/// Label the owner of `tag` (filed under `id`) and finish with its detail row.
fn label_detail(actor: Option<String>, id: String, tag: TagSnapshot, found: bool) -> (res: (CatalogRun, Effect))
    ensures
        labels_detail(actor, id@, tag@, found, res.0, res.1),
        res.0.wf(),
{
    if actor.is_some() {
        let tag_id = id.clone();
        (CatalogRun { actor, phase: Phase::LabelingDetail { id, tag, found } }, Effect::LookupOwner {
            tag_id,
        })
    } else {
        let eff = detail_outcome(&tag, id.as_str(), String::from_str("owner"), found);
        (CatalogRun { actor, phase: Phase::Finished }, eff)
    }
}

/// Go on after the history rows.
fn continue_after_history(actor: Option<String>, id: String, then: AfterHistory) -> (res: (CatalogRun, Effect))
    ensures
        continues_after_history(actor, id@, then, res.0, res.1),
        res.0.wf(),
{
    match then {
        AfterHistory::Detail { tag } => label_detail(actor, id, tag, false),
        AfterHistory::Remove => {
            let rid = id.clone();
            (CatalogRun { actor, phase: Phase::Removing { id } }, Effect::Remove { id: rid })
        },
    }
}

/// Write the change trail of `m`, then go on with `then`.
fn write_history(
    actor: Option<String>,
    op: &'static str,
    id: String,
    m: TagMutation,
    then: AfterHistory,
) -> (res: (CatalogRun, Effect))
    ensures
        writes_history(actor, op, id@, m@, then, res.0, res.1),
        res.0.wf(),
{
    match TagHistoryWriter.on_mutation_with_tag_id(&m, Some(id.as_str())) {
        Err(e) => fail_service(actor, op, e),
        Ok(rows) => {
            if rows.len() > 0 {
                let row = clone_row(&rows[0]);
                (
                    CatalogRun {
                        actor,
                        phase: Phase::AppendingHistory { operation: op, id, rows, next: 0, then },
                    },
                    Effect::Append { row },
                )
            } else {
                continue_after_history(actor, id, then)
            }
        },
    }
}

/// Answer the rows a query found.
fn list_rows(actor: Option<String>, rows: Vec<TagSnapshot>) -> (res: (CatalogRun, Effect))
    ensures
        lists(actor, rows, res.0, res.1),
        res.0.wf(),
{
    if rows.len() == 0 || actor.is_none() {
        let mut out: Vec<TagRowDto> = Vec::new();
        let mut i: usize = 0;
        while i < rows.len()
            invariant
                i <= rows@.len(),
                out@.len() == i,
                forall|j: int| 0 <= j < i ==> #[trigger] out@[j]@ == spec_row_dto(rows@[j]@, "owner"@),
            decreases rows@.len() - i,
        {
            out.push(to_row_dto(&rows[i], String::from_str("owner")));
            i = i + 1;
        }
        (CatalogRun { actor, phase: Phase::Finished }, Effect::Finish(Outcome::Listed(out)))
    } else {
        let tag_id = record_id_str(&rows[0]);
        (
            CatalogRun { actor, phase: Phase::LabelingRows { rows, out: Vec::new() } },
            Effect::LookupOwner { tag_id },
        )
    }
}

/// Label the next row of `rows` with `label`.
fn label_row(actor: Option<String>, rows: Vec<TagSnapshot>, out: Vec<TagRowDto>, label: String) -> (res: (
    CatalogRun,
    Effect,
))
    requires
        out@.len() < rows@.len(),
        actor is Some,
        forall|i: int| 0 <= i < out@.len() ==> #[trigger] out@[i]@ == spec_row_dto(
            rows@[i]@,
            out@[i]@.owner_display,
        ),
    ensures
        labels_row(actor, rows, out, label@, res.0, res.1),
        res.0.wf(),
{
    let ghost old_out = out;
    let mut out = out;
    let k = out.len();
    let n = rows.len();
    out.push(to_row_dto(&rows[k], label));
    assert(row_dtos_view(out@) =~= row_dtos_view(old_out@).push(spec_row_dto(rows@[k as int]@, label@)));
    if k + 1 == n {
        (CatalogRun { actor, phase: Phase::Finished }, Effect::Finish(Outcome::Listed(out)))
    } else {
        let tag_id = record_id_str(&rows[k + 1]);
        (CatalogRun { actor, phase: Phase::LabelingRows { rows, out } }, Effect::LookupOwner { tag_id })
    }
}

impl CatalogRun {
    /// Take the storage layer's answer to the last effect and decide what to
    /// do next.
    pub fn step(self, event: Event) -> (res: (CatalogRun, Effect))
        requires
            self.wf(),
            self.accepts(event),
        ensures
            step_spec(self, event, res.0, res.1),
            res.0.wf(),
    {
        let CatalogRun { actor, phase } = self;
        match phase {
            Phase::Creating { id } => match event {
                Event::Saved(created) => {
                    let m = TagMutation {
                        kind: MutationKind::Create,
                        before: None,
                        after: Some(clone_snapshot(&created)),
                        fields: TagFieldChanges::compute(None, Some(&created)),
                        actor: clone_opt(&actor),
                    };
                    write_history(actor, "create", id, m, AfterHistory::Detail { tag: created })
                },
                Event::Failed(e) => fail_service(actor, "create", e),
                _ => {
                    proof {
                        assert(false);
                    }
                    (CatalogRun { actor, phase: Phase::Finished }, Effect::Finish(Outcome::Deleted))
                },
            },
            Phase::FetchingForUpdate { id, input, now } => match event {
                Event::Fetched(None) => {
                    let err = TagError::not_found(id.as_str());
                    (CatalogRun { actor, phase: Phase::Finished }, Effect::Finish(Outcome::Failed(err)))
                },
                Event::Fetched(Some(before)) => {
                    let patch = TagPatch {
                        name: input.name,
                        taxonomy: input.taxonomy,
                        description: input.description,
                        updated_at: now,
                    };
                    let commit_id = id.clone();
                    (
                        CatalogRun { actor, phase: Phase::Committing { id, before } },
                        Effect::Commit { id: commit_id, patch },
                    )
                },
                Event::Failed(e) => fail_service(actor, "update", e),
                _ => {
                    proof {
                        assert(false);
                    }
                    (CatalogRun { actor, phase: Phase::Finished }, Effect::Finish(Outcome::Deleted))
                },
            },
            Phase::Committing { id, before } => match event {
                Event::Saved(updated) => {
                    let m = TagMutation {
                        kind: MutationKind::Update,
                        before: Some(clone_snapshot(&before)),
                        after: Some(clone_snapshot(&updated)),
                        fields: TagFieldChanges::compute(Some(&before), Some(&updated)),
                        actor: clone_opt(&actor),
                    };
                    write_history(actor, "update", id, m, AfterHistory::Detail { tag: updated })
                },
                Event::Failed(e) => fail_service(actor, "update", e),
                _ => {
                    proof {
                        assert(false);
                    }
                    (CatalogRun { actor, phase: Phase::Finished }, Effect::Finish(Outcome::Deleted))
                },
            },
            Phase::FetchingForDelete { id } => match event {
                Event::Fetched(None) => (
                    CatalogRun { actor, phase: Phase::Finished },
                    Effect::Finish(Outcome::Deleted),
                ),
                Event::Fetched(Some(before)) => {
                    if actor.is_none() {
                        let m = TagMutation {
                            kind: MutationKind::Delete,
                            before: Some(clone_snapshot(&before)),
                            after: None,
                            fields: TagFieldChanges::compute(Some(&before), None),
                            actor: None,
                        };
                        write_history(actor, "delete", id, m, AfterHistory::Remove)
                    } else {
                        let tag_id = id.clone();
                        (
                            CatalogRun { actor, phase: Phase::CheckingOwner { id, before } },
                            Effect::LookupOwner { tag_id },
                        )
                    }
                },
                Event::Failed(e) => fail_service(actor, "delete", e),
                _ => {
                    proof {
                        assert(false);
                    }
                    (CatalogRun { actor, phase: Phase::Finished }, Effect::Finish(Outcome::Deleted))
                },
            },
            Phase::CheckingOwner { id, before } => match event {
                Event::OwnerRow(row) => {
                    let allowed = match &actor {
                        Some(a) => owner_matches(a.as_str(), &row),
                        None => false,
                    };
                    if allowed {
                        let m = TagMutation {
                            kind: MutationKind::Delete,
                            before: Some(clone_snapshot(&before)),
                            after: None,
                            fields: TagFieldChanges::compute(Some(&before), None),
                            actor: clone_opt(&actor),
                        };
                        write_history(actor, "delete", id, m, AfterHistory::Remove)
                    } else {
                        let err = TagError::access_denied(TAG_DATA_OWNER_POLICY);
                        (CatalogRun { actor, phase: Phase::Finished }, Effect::Finish(Outcome::Failed(err)))
                    }
                },
                Event::Failed(e) => fail_service(actor, "delete", e),
                _ => {
                    proof {
                        assert(false);
                    }
                    (CatalogRun { actor, phase: Phase::Finished }, Effect::Finish(Outcome::Deleted))
                },
            },
            Phase::Removing { id } => match event {
                Event::Done => (CatalogRun { actor, phase: Phase::Finished }, Effect::Finish(Outcome::Deleted)),
                Event::Failed(e) => fail_service(actor, "delete", e),
                _ => {
                    proof {
                        assert(false);
                    }
                    (CatalogRun { actor, phase: Phase::Finished }, Effect::Finish(Outcome::Deleted))
                },
            },
            Phase::FetchingForGet { id } => match event {
                Event::Fetched(None) => (
                    CatalogRun { actor, phase: Phase::Finished },
                    Effect::Finish(Outcome::Found(None)),
                ),
                Event::Fetched(Some(tag)) => label_detail(actor, id, tag, true),
                Event::Failed(e) => fail_service(actor, "get", e),
                _ => {
                    proof {
                        assert(false);
                    }
                    (CatalogRun { actor, phase: Phase::Finished }, Effect::Finish(Outcome::Deleted))
                },
            },
            Phase::Querying => match event {
                Event::Rows(rows) => list_rows(actor, rows),
                Event::Failed(e) => fail_service(actor, "list", e),
                _ => {
                    proof {
                        assert(false);
                    }
                    (CatalogRun { actor, phase: Phase::Finished }, Effect::Finish(Outcome::Deleted))
                },
            },
            Phase::LabelingRows { rows, out } => match event {
                Event::OwnerRow(row) => {
                    let label = owner_label(&actor, &row);
                    label_row(actor, rows, out, label)
                },
                Event::Failed(_) => {
                    let label = owner_label(&actor, &None);
                    label_row(actor, rows, out, label)
                },
                _ => {
                    proof {
                        assert(false);
                    }
                    (CatalogRun { actor, phase: Phase::Finished }, Effect::Finish(Outcome::Deleted))
                },
            },
            Phase::LabelingDetail { id, tag, found } => match event {
                Event::OwnerRow(row) => {
                    let label = owner_label(&actor, &row);
                    let eff = detail_outcome(&tag, id.as_str(), label, found);
                    (CatalogRun { actor, phase: Phase::Finished }, eff)
                },
                Event::Failed(_) => {
                    let label = owner_label(&actor, &None);
                    let eff = detail_outcome(&tag, id.as_str(), label, found);
                    (CatalogRun { actor, phase: Phase::Finished }, eff)
                },
                _ => {
                    proof {
                        assert(false);
                    }
                    (CatalogRun { actor, phase: Phase::Finished }, Effect::Finish(Outcome::Deleted))
                },
            },
            Phase::AppendingHistory { operation, id, rows, next, then } => match event {
                Event::Done => {
                    let n = rows.len();
                    if next + 1 < n {
                        let row = clone_row(&rows[next + 1]);
                        (
                            CatalogRun {
                                actor,
                                phase: Phase::AppendingHistory { operation, id, rows, next: next + 1, then },
                            },
                            Effect::Append { row },
                        )
                    } else {
                        continue_after_history(actor, id, then)
                    }
                },
                Event::Failed(e) => fail_service(actor, operation, e),
                _ => {
                    proof {
                        assert(false);
                    }
                    (CatalogRun { actor, phase: Phase::Finished }, Effect::Finish(Outcome::Deleted))
                },
            },
            Phase::Finished => {
                proof {
                    assert(false);
                }
                (CatalogRun { actor, phase: Phase::Finished }, Effect::Finish(Outcome::Deleted))
            },
        }
    }
}

/// How a `create` of `input` by `actor` begins: the run waits on the write
/// of a new row under a fresh random (version-4 UUID) id, the row carrying the input's
/// fields and one instant as both creation and update time.
pub open spec fn create_start(input: TagCreateInput, actor: Option<String>, run: CatalogRun, eff: Effect) -> bool {
    &&& run.actor == actor
    &&& run.phase matches Phase::Creating { id } && (eff matches Effect::Upsert { id: i, tag } && i@
        == id@ && is_v4_uuid_text(id@) && tag@ == (TagSnapshotView {
        id: None,
        name: input.name@,
        taxonomy: opt_view(input.taxonomy),
        description: opt_view(input.description),
        created_at: tag.created_at,
        updated_at: tag.created_at,
    }))
}

/// Begin `create`: write a new row with a fresh random id, stamped now.
pub fn create(input: TagCreateInput, actor: Option<String>) -> (res: (CatalogRun, Effect))
    ensures
        create_start(input, actor, res.0, res.1),
{
    let now = now_utc();
    let id = new_record_id();
    let tag = TagSnapshot {
        id: None,
        name: input.name,
        taxonomy: input.taxonomy,
        description: input.description,
        created_at: now,
        updated_at: now,
    };
    let upsert_id = id.clone();
    (CatalogRun { actor, phase: Phase::Creating { id } }, Effect::Upsert { id: upsert_id, tag })
}

/// How an `update` of the row `id` with `input` by `actor` begins: the run
/// reads the row first, holding as its update instant a reading of the
/// clock (a value the clock call can give) taken as the update began.
pub open spec fn update_start(
    id: Seq<char>,
    input: TagUpdateInput,
    actor: Option<String>,
    run: CatalogRun,
    eff: Effect,
) -> bool {
    &&& run.actor == actor
    &&& run.phase matches Phase::FetchingForUpdate { id: i, input: inp, now } && i@ == id && inp
        == input && call_ensures(now_utc, (), now)
    &&& eff matches Effect::Fetch { id: f } && f@ == id
}

/// Begin `update` of the row `id`: read it first, stamping the update with
/// the clock as it reads now.
pub fn update(id: &str, input: TagUpdateInput, actor: Option<String>) -> (res: (CatalogRun, Effect))
    ensures
        update_start(id@, input, actor, res.0, res.1),
{
    // Called through its function value, so that the instant is known to be
    // one that the clock call gave (`call_ensures`).
    let clock = now_utc;
    let now = clock();
    (
        CatalogRun { actor, phase: Phase::FetchingForUpdate { id: String::from_str(id), input, now } },
        Effect::Fetch { id: String::from_str(id) },
    )
}

/// Begin `delete` of the row `id`: read it first.
pub fn delete(id: &str, actor: Option<String>) -> (res: (CatalogRun, Effect))
    ensures
        res.0.actor == actor,
        res.0.phase matches Phase::FetchingForDelete { id: i } && i@ == id@,
        res.1 matches Effect::Fetch { id: f } && f@ == id@,
{
    (
        CatalogRun { actor, phase: Phase::FetchingForDelete { id: String::from_str(id) } },
        Effect::Fetch { id: String::from_str(id) },
    )
}

/// Begin `get` of the row `id`: read it.
pub fn get(id: &str, actor: Option<String>) -> (res: (CatalogRun, Effect))
    ensures
        res.0.actor == actor,
        res.0.phase matches Phase::FetchingForGet { id: i } && i@ == id@,
        res.1 matches Effect::Fetch { id: f } && f@ == id@,
{
    (
        CatalogRun { actor, phase: Phase::FetchingForGet { id: String::from_str(id) } },
        Effect::Fetch { id: String::from_str(id) },
    )
}

/// Begin `list`: query the rows, filtering by a name-contains `search` term
/// and an exact `taxonomy`, each only where it holds more than whitespace.
pub fn list(actor: Option<String>, search: Option<String>, taxonomy: Option<String>) -> (res: (
    CatalogRun,
    Effect,
))
    ensures
        res.0.actor == actor,
        res.0.phase is Querying,
        res.1 matches Effect::Query { search: s, taxonomy: t } && opt_view(s) == non_blank_view(
            opt_view(search),
        ) && opt_view(t) == non_blank_view(opt_view(taxonomy)),
{
    let s = non_blank(search);
    let t = non_blank(taxonomy);
    (CatalogRun { actor, phase: Phase::Querying }, Effect::Query { search: s, taxonomy: t })
}

} // verus!
