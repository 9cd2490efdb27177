//! Properties of the catalog that span several operations or steps.

use crate::error::{TagError, TAG_DATA_OWNER_POLICY};
use crate::side_effects::history_writer::{fields_between, row_view, spec_update_rows, tag_record, HistoryRow};
use crate::privacy_policies::{owner_row_view, owns};
use crate::service::{
    continues_after_history, create_mutation, create_start, update_start, ended, spec_detail_dto,
    spec_owner_label, spec_row_dto, step_spec, trace, writes_history, AfterHistory, CatalogRun,
    Effect, Event, Outcome, Phase,
};
use crate::sys::is_v4_uuid_text;
use crate::sys::now_utc;
use crate::types::{opt_view, TagUpdateInput, TagCreateInput, TagSnapshot, TagSnapshotView};
use vstd::prelude::*;

verus! {

/// The owner label and the ownership rule agree: a user who owns a row sees
/// it labelled `"you"`, and a row labelled `"you"` is owned by the user
/// (unless some other owner's id is itself the text `"you"`).
pub proof fn law_owner_label_matches_ownership(actor: Seq<char>, row: Option<Option<Seq<char>>>)
    ensures
        owns(actor, row) ==> spec_owner_label(Some(actor), row) == "you"@,
        spec_owner_label(Some(actor), row) == "you"@ && row != Some(Some("you"@)) ==> owns(actor, row),
{
    reveal_strlit("you");
    reveal_strlit("owner");
    assert("you"@ != "owner"@) by {
        assert("you"@[0] != "owner"@[0]);
    }
}

/// The rows an update writes name exactly the fields whose values differ
/// between the row before and the row after, at most one row per field,
/// each about the updated tag and by the acting user.
pub proof fn law_update_history_names_changed_fields(
    before: TagSnapshotView,
    after: TagSnapshotView,
    id: Seq<char>,
    actor: Option<Seq<char>>,
)
    ensures
        ({
            let rows = spec_update_rows(fields_between(Some(before), Some(after)), id, actor);
            &&& rows.len() <= 3
            &&& (exists|i: int| 0 <= i < rows.len() && #[trigger] rows[i].field_name == "name"@) <==> before.name
                != after.name
            &&& (exists|i: int| 0 <= i < rows.len() && #[trigger] rows[i].field_name == "taxonomy"@)
                <==> before.taxonomy != after.taxonomy
            &&& (exists|i: int| 0 <= i < rows.len() && #[trigger] rows[i].field_name == "description"@)
                <==> before.description != after.description
            &&& forall|i: int| 0 <= i < rows.len() ==> (#[trigger] rows[i]).source == tag_record(id)
                && rows[i].actor == crate::side_effects::history_writer::actor_record_view(actor)
            &&& forall|i: int|
                0 <= i < rows.len() && (#[trigger] rows[i]).field_name == "name"@ ==> rows[i].old_value
                    == before.name && rows[i].new_value == after.name
            &&& forall|i: int|
                0 <= i < rows.len() && (#[trigger] rows[i]).field_name == "taxonomy"@ ==> rows[i].old_value
                    == match before.taxonomy {
                    Some(x) => x,
                    None => Seq::empty(),
                } && rows[i].new_value == match after.taxonomy {
                    Some(x) => x,
                    None => Seq::empty(),
                }
            &&& forall|i: int|
                0 <= i < rows.len() && (#[trigger] rows[i]).field_name == "description"@
                    ==> rows[i].old_value == match before.description {
                    Some(x) => x,
                    None => Seq::empty(),
                } && rows[i].new_value == match after.description {
                    Some(x) => x,
                    None => Seq::empty(),
                }
        }),
{
    let f = fields_between(Some(before), Some(after));
    let rows = spec_update_rows(f, id, actor);
    reveal_strlit("name");
    reveal_strlit("taxonomy");
    reveal_strlit("description");
    let n = if f.name.changed() { 1int } else { 0int };
    let t = if f.taxonomy.changed() { 1int } else { 0int };
    let tb = match before.taxonomy {
        Some(x) => x,
        None => Seq::<char>::empty(),
    };
    let ta = match after.taxonomy {
        Some(x) => x,
        None => Seq::<char>::empty(),
    };
    let db = match before.description {
        Some(x) => x,
        None => Seq::<char>::empty(),
    };
    let da = match after.description {
        Some(x) => x,
        None => Seq::<char>::empty(),
    };
    assert(forall|i: int| 0 <= i < rows.len() ==> {
        ||| (i < n && rows[i].field_name == "name"@ && rows[i].old_value == before.name
            && rows[i].new_value == after.name)
        ||| (n <= i < n + t && rows[i].field_name == "taxonomy"@ && rows[i].old_value == tb
            && rows[i].new_value == ta)
        ||| (n + t <= i && rows[i].field_name == "description"@ && rows[i].old_value == db
            && rows[i].new_value == da)
    });
    if before.name != after.name {
        assert(rows[0].field_name == "name"@);
    }
    if before.taxonomy != after.taxonomy {
        assert(rows[n].field_name == "taxonomy"@);
    }
    if before.description != after.description {
        assert(rows[n + t].field_name == "description"@);
    }
}

/// Updating a row that does not exist answers `NotFound` with the id asked
/// for, and writes nothing.
pub proof fn law_update_of_missing_row_is_not_found(
    pre: CatalogRun,
    post: CatalogRun,
    eff: Effect,
)
    requires
        pre.phase is FetchingForUpdate,
        step_spec(pre, Event::Fetched(None), post, eff),
    ensures
        ended(post, pre.actor),
        eff matches Effect::Finish(Outcome::Failed(TagError::NotFound { id })) && id@ == pre.phase->FetchingForUpdate_id@,
{
}

/// Deleting a row that does not exist succeeds, and writes nothing.
pub proof fn law_delete_of_missing_row_succeeds(pre: CatalogRun, post: CatalogRun, eff: Effect)
    requires
        pre.phase is FetchingForDelete,
        step_spec(pre, Event::Fetched(None), post, eff),
    ensures
        ended(post, pre.actor),
        eff matches Effect::Finish(Outcome::Deleted),
{
}

/// Only the owner deletes: when a user deletes an existing row, the run
/// first looks up the row's ownership; and when the ownership row does not
/// name that user, the delete is refused by the ownership policy before any
/// history row is appended or the row removed.
pub proof fn law_only_owner_deletes(
    pre: CatalogRun,
    before: TagSnapshotView,
    mid: CatalogRun,
    eff1: Effect,
    row: Option<Option<String>>,
    post: CatalogRun,
    eff2: Effect,
)
    requires
        pre.phase is FetchingForDelete,
        pre.actor is Some,
        step_spec(pre, Event::Fetched(Some(mid.phase->CheckingOwner_before)), mid, eff1),
        step_spec(mid, Event::OwnerRow(row), post, eff2),
        !owns(pre.actor.unwrap()@, owner_row_view(row)),
    ensures
        eff1 is LookupOwner,
        ended(post, pre.actor),
        eff2 matches Effect::Finish(Outcome::Failed(TagError::AccessDenied { policy })) && policy
            == TAG_DATA_OWNER_POLICY,
{
}

/// Once a mutation starts writing its change trail, it appends every
/// remaining row, in order, before it does anything else: answered `Done`
/// each time, the run's effects up to the first one that is not an append
/// are exactly the remaining rows, and that first other effect is what
/// follows the trail (the removal of a deleted row, or the detail row).
pub proof fn law_history_rows_all_appended(pre: CatalogRun, evs: Seq<Event>, effs: Seq<Effect>)
    requires
        pre.wf(),
        pre.phase is AppendingHistory,
        trace(pre, evs, effs),
        evs.len() > 0,
        forall|i: int| 0 <= i < evs.len() ==> #[trigger] evs[i] is Done,
        forall|i: int| 0 <= i < effs.len() - 1 ==> #[trigger] effs[i] is Append,
        !(effs.last() is Append),
    ensures
        ({
            let rows = pre.phase->AppendingHistory_rows@;
            let next = pre.phase->AppendingHistory_next;
            &&& effs.len() == rows.len() - next
            &&& forall|i: int|
                0 <= i < effs.len() - 1 ==> (#[trigger] effs[i] matches Effect::Append { row } && row@
                    == rows[next + 1 + i]@)
            &&& exists|post: CatalogRun|
                continues_after_history(
                    pre.actor,
                    pre.phase->AppendingHistory_id@,
                    pre.phase->AppendingHistory_then,
                    post,
                    effs.last(),
                )
        }),
    decreases evs.len(),
{
    let rows = pre.phase->AppendingHistory_rows@;
    let next = pre.phase->AppendingHistory_next;
    let mid = choose|mid: CatalogRun|
        #![trigger step_spec(pre, evs[0], mid, effs[0])]
        pre.accepts(evs[0]) && step_spec(pre, evs[0], mid, effs[0]) && trace(
            mid,
            evs.drop_first(),
            effs.drop_first(),
        );
    assert(evs[0] is Done);
    if next + 1 < rows.len() {
        assert(effs[0] is Append);
        assert(evs.len() > 1) by {
            if evs.len() == 1 {
                assert(effs.last() == effs[0]);
            }
        }
        let evs2 = evs.drop_first();
        let effs2 = effs.drop_first();
        assert forall|i: int| 0 <= i < evs2.len() implies #[trigger] evs2[i] is Done by {
            assert(evs2[i] == evs[i + 1]);
        }
        assert forall|i: int| 0 <= i < effs2.len() - 1 implies #[trigger] effs2[i] is Append by {
            assert(effs2[i] == effs[i + 1]);
        }
        assert(effs2.last() == effs.last());
        law_history_rows_all_appended(mid, evs2, effs2);
        assert forall|i: int| 0 <= i < effs.len() - 1 implies (#[trigger] effs[i] matches Effect::Append {
            row,
        } && row@ == rows[next + 1 + i]@) by {
            if i > 0 {
                assert(effs[i] == effs2[i - 1]);
            }
        }
    } else {
        assert(effs.len() == 1) by {
            if effs.len() > 1 {
                assert(effs[0] is Append);
                assert(continues_after_history(
                    pre.actor,
                    pre.phase->AppendingHistory_id@,
                    pre.phase->AppendingHistory_then,
                    mid,
                    effs[0],
                ));
            }
        }
        assert(effs.last() == effs[0]);
    }
}

/// A create answers with its row only after recording it: in any run of a
/// create that ends with the detail row, the first effect after the write is
/// the append of the `created` history row for the written row.
pub proof fn law_create_records_before_answering(pre: CatalogRun, evs: Seq<Event>, effs: Seq<Effect>)
    requires
        pre.phase is Creating,
        pre.phase->Creating_id@.len() > 0,
        trace(pre, evs, effs),
        effs.len() > 0,
        effs.last() matches Effect::Finish(Outcome::Detail(_)),
    ensures
        effs.len() > 1,
        evs[0] is Saved,
        effs[0] matches Effect::Append { row } && row@ == row_view(
            pre.phase->Creating_id@,
            "created"@,
            Seq::empty(),
            evs[0]->Saved_0@.name,
            Some(evs[0]->Saved_0@.name),
            opt_view(pre.actor),
        ),
{
    let mid = choose|mid: CatalogRun|
        #![trigger step_spec(pre, evs[0], mid, effs[0])]
        pre.accepts(evs[0]) && step_spec(pre, evs[0], mid, effs[0]) && trace(
            mid,
            evs.drop_first(),
            effs.drop_first(),
        );
    if evs[0] is Failed {
        assert(mid.phase is Finished);
        if effs.len() > 1 {
            let evs2 = evs.drop_first();
            let effs2 = effs.drop_first();
            assert(evs2.len() > 0);
            assert(!mid.accepts(evs2[0]));
        }
        assert(effs.last() == effs[0]);
    } else {
        assert(evs[0] is Saved);
        assert(effs[0] is Append);
        assert(effs.len() > 1) by {
            if effs.len() == 1 {
                assert(effs.last() == effs[0]);
            }
        }
    }
}

/// An update writes what was asked, stamped with the clock: when the row
/// exists, the run's next effect commits to that row exactly the input's
/// fields, with an update time that is a reading of the clock taken when the
/// update began (not a fixed or earlier value); when it does not, the run
/// answers `NotFound` and commits nothing.
pub proof fn law_update_commits_input_at_clock_reading(
    id: Seq<char>,
    input: TagUpdateInput,
    actor: Option<String>,
    pre: CatalogRun,
    first: Effect,
    evs: Seq<Event>,
    effs: Seq<Effect>,
)
    requires
        update_start(id, input, actor, pre, first),
        trace(pre, evs, effs),
        effs.len() > 0,
    ensures
        evs[0] matches Event::Fetched(Some(_)) ==> (effs[0] matches Effect::Commit { id: i, patch } && {
            &&& i@ == id
            &&& call_ensures(now_utc, (), patch.updated_at)
            &&& opt_view(patch.name) == opt_view(input.name)
            &&& opt_view(patch.taxonomy) == opt_view(input.taxonomy)
            &&& opt_view(patch.description) == opt_view(input.description)
        }),
        evs[0] matches Event::Fetched(None) ==> effs[0] matches Effect::Finish(
            Outcome::Failed(TagError::NotFound { id: i }),
        ) && i@ == id,
{
    let mid = lemma_trace_first_step(pre, evs, effs);
}

/// A list row and a detail row carry the stored row's own fields: its
/// name, taxonomy, description and times as they are, and its id (or, for
/// a detail row of a row that carries none, the id it was asked under).
pub proof fn law_rows_carry_stored_fields(t: TagSnapshotView, owner: Seq<char>, id: Seq<char>)
    ensures
        spec_row_dto(t, owner).name == t.name,
        spec_row_dto(t, owner).taxonomy == t.taxonomy,
        spec_row_dto(t, owner).description == t.description,
        spec_row_dto(t, owner).updated_at == t.updated_at,
        spec_row_dto(t, owner).owner_display == owner,
        spec_row_dto(t, owner).id == match t.id {
            Some(x) => x,
            None => Seq::empty(),
        },
        spec_detail_dto(t, id, owner).name == t.name,
        spec_detail_dto(t, id, owner).taxonomy == t.taxonomy,
        spec_detail_dto(t, id, owner).description == t.description,
        spec_detail_dto(t, id, owner).created_at == t.created_at,
        spec_detail_dto(t, id, owner).updated_at == t.updated_at,
        spec_detail_dto(t, id, owner).owner_display == owner,
        spec_detail_dto(t, id, owner).id == match t.id {
            Some(x) => if x.len() > 0 {
                x
            } else {
                id
            },
            None => id,
        },
{
}

/// The storage layer kept the row it was given under `id`: the stored row
/// has the given fields and times, and carries no id or that id.
pub open spec fn stores_as_given(given: TagSnapshotView, id: Seq<char>, stored: TagSnapshotView) -> bool {
    &&& stored.name == given.name
    &&& stored.taxonomy == given.taxonomy
    &&& stored.description == given.description
    &&& stored.created_at == given.created_at
    &&& stored.updated_at == given.updated_at
    &&& (stored.id is None || stored.id == Some(id))
}

/// Every create run ends in one of two ways. It fails with the `create`
/// service failure, whatever went wrong (the write, a history append), or,
/// where the storage layer kept the row it was given, it answers a detail
/// row filed under the fresh id it wrote (a bare version-4 UUID text, no
/// table prefix), with the input's name, taxonomy
/// and description, and one instant as creation and update time.
pub proof fn law_create_run_answers_input(
    input: TagCreateInput,
    actor: Option<String>,
    pre: CatalogRun,
    first: Effect,
    evs: Seq<Event>,
    effs: Seq<Effect>,
)
    requires
        create_start(input, actor, pre, first),
        trace(pre, evs, effs),
        effs.len() > 0,
        effs.last() is Finish,
        evs[0] matches Event::Saved(stored) ==> stores_as_given(
            first->Upsert_tag@,
            pre.phase->Creating_id@,
            stored@,
        ),
    ensures
        effs.last() matches Effect::Finish(o) && (o is Failed || o is Detail),
        effs.last() matches Effect::Finish(Outcome::Failed(e)) ==> e matches TagError::Service {
            operation,
            ..
        } && operation == "create",
        effs.last() matches Effect::Finish(Outcome::Detail(d)) ==> {
            &&& d@.id == pre.phase->Creating_id@
            &&& is_v4_uuid_text(d@.id)
            &&& d@.name == input.name@
            &&& d@.taxonomy == opt_view(input.taxonomy)
            &&& d@.description == opt_view(input.description)
            &&& d@.created_at == d@.updated_at
        },
{
    let id = pre.phase->Creating_id;
    let mid = lemma_trace_first_step(pre, evs, effs);
    let ev = evs[0];
    match ev {
        Event::Saved(created) => {
            lemma_create_history_start(actor, id@, create_mutation(created@, actor), created, mid, effs[0]);
            if mid.phase is Finished {
                lemma_trace_after_end(mid, evs.drop_first(), effs.drop_first());
                assert(effs.last() == effs[0]);
            } else {
                assert(effs.len() > 1) by {
                    if effs.len() == 1 {
                        assert(effs.last() == effs[0]);
                    }
                }
                lemma_create_tail_ends(mid, evs.drop_first(), effs.drop_first(), id@, created@);
                assert(effs.drop_first().last() == effs.last());
            }
        },
        Event::Failed(e) => {
            lemma_trace_after_end(mid, evs.drop_first(), effs.drop_first());
            assert(effs.last() == effs[0]);
        },
        _ => {},
    }
}

/// How a create run that wrote `tag` under `id` ends: in the `create`
/// service failure, or with the detail row of `tag` filed under `id`.
spec fn create_outcome(eff: Effect, id: Seq<char>, tag: TagSnapshotView) -> bool {
    ||| eff matches Effect::Finish(Outcome::Failed(e)) && e matches TagError::Service {
        operation,
        ..
    } && operation == "create"
    ||| eff matches Effect::Finish(Outcome::Detail(d)) && d@ == spec_detail_dto(tag, id, d@.owner_display)
}

/// Where a create run stands after its row `tag` was written under `id`:
/// appending the `create` history rows, or labelling the owner of `tag`.
spec fn create_tail(run: CatalogRun, id: Seq<char>, tag: TagSnapshotView) -> bool {
    ||| run.phase matches Phase::AppendingHistory {
        operation,
        id: i,
        then: AfterHistory::Detail { tag: t },
        ..
    } && operation == "create" && i@ == id && t@ == tag
    ||| run.phase matches Phase::LabelingDetail { id: i, tag: t, found } && i@ == id && t@ == tag
        && !found
}

/// After a step of such a run: it ended as a create ends, or it is still
/// in the tail and has not finished.
spec fn create_goes_on(run: CatalogRun, eff: Effect, id: Seq<char>, tag: TagSnapshotView) -> bool {
    ||| run.phase is Finished && create_outcome(eff, id, tag)
    ||| create_tail(run, id, tag) && !(eff is Finish)
}

/// What follows a create's history rows keeps to the create's course.
proof fn lemma_create_after_history(
    actor: Option<String>,
    id: Seq<char>,
    t: TagSnapshot,
    post: CatalogRun,
    eff: Effect,
)
    requires
        continues_after_history(actor, id, AfterHistory::Detail { tag: t }, post, eff),
    ensures
        create_goes_on(post, eff, id, t@),
{
}

/// Starting a create's history keeps to the create's course.
proof fn lemma_create_history_start(
    actor: Option<String>,
    id: Seq<char>,
    m: crate::side_effects::history_writer::MutationView,
    t: TagSnapshot,
    post: CatalogRun,
    eff: Effect,
)
    requires
        writes_history(actor, "create", id, m, AfterHistory::Detail { tag: t }, post, eff),
    ensures
        create_goes_on(post, eff, id, t@),
{
    if continues_after_history(actor, id, AfterHistory::Detail { tag: t }, post, eff) {
        lemma_create_after_history(actor, id, t, post, eff);
    }
}

/// One step from a create's tail keeps to the create's course.
proof fn lemma_create_tail_step(
    pre: CatalogRun,
    ev: Event,
    post: CatalogRun,
    eff: Effect,
    id: Seq<char>,
    tag: TagSnapshotView,
)
    requires
        create_tail(pre, id, tag),
        pre.accepts(ev),
        step_spec(pre, ev, post, eff),
    ensures
        create_goes_on(post, eff, id, tag),
{
    if let Phase::AppendingHistory { operation, id: i, rows, next, then } = pre.phase {
        if let AfterHistory::Detail { tag: t } = then {
            if ev is Done && next + 1 >= rows@.len() {
                lemma_create_after_history(pre.actor, i@, t, post, eff);
            }
        }
    }
}

/// A run in a create's tail that runs to its end ends as a create ends.
proof fn lemma_create_tail_ends(
    pre: CatalogRun,
    evs: Seq<Event>,
    effs: Seq<Effect>,
    id: Seq<char>,
    tag: TagSnapshotView,
)
    requires
        create_tail(pre, id, tag),
        trace(pre, evs, effs),
        effs.len() > 0,
        effs.last() is Finish,
    ensures
        create_outcome(effs.last(), id, tag),
    decreases evs.len(),
{
    let mid = lemma_trace_first_step(pre, evs, effs);
    lemma_create_tail_step(pre, evs[0], mid, effs[0], id, tag);
    if mid.phase is Finished {
        lemma_trace_after_end(mid, evs.drop_first(), effs.drop_first());
        assert(effs.last() == effs[0]);
    } else {
        assert(effs.len() > 1) by {
            if effs.len() == 1 {
                assert(effs.last() == effs[0]);
            }
        }
        lemma_create_tail_ends(mid, evs.drop_first(), effs.drop_first(), id, tag);
        assert(effs.drop_first().last() == effs.last());
    }
}

/// A run that has ended does nothing more.
proof fn lemma_trace_after_end(post: CatalogRun, evs: Seq<Event>, effs: Seq<Effect>)
    requires
        post.phase is Finished,
        trace(post, evs, effs),
    ensures
        evs.len() == 0,
        effs.len() == 0,
{
    if evs.len() > 0 {
        let mid = choose|mid: CatalogRun|
            #![trigger step_spec(post, evs[0], mid, effs[0])]
            post.accepts(evs[0]) && step_spec(post, evs[0], mid, effs[0]) && trace(
                mid,
                evs.drop_first(),
                effs.drop_first(),
            );
    }
}

/// The next state of a run, as its trace records it.
proof fn lemma_trace_first_step(pre: CatalogRun, evs: Seq<Event>, effs: Seq<Effect>) -> (mid: CatalogRun)
    requires
        trace(pre, evs, effs),
        evs.len() > 0,
    ensures
        pre.accepts(evs[0]),
        step_spec(pre, evs[0], mid, effs[0]),
        trace(mid, evs.drop_first(), effs.drop_first()),
{
    choose|mid: CatalogRun|
        #![trigger step_spec(pre, evs[0], mid, effs[0])]
        pre.accepts(evs[0]) && step_spec(pre, evs[0], mid, effs[0]) && trace(
            mid,
            evs.drop_first(),
            effs.drop_first(),
        )
}

/// A delete removes a row only after recording it, and only for its owner:
/// in any run of a delete of `id` that removes the row, the storage layer
/// had the row, the `deleted` history row for it was appended earlier, and,
/// for a user actor, the ownership row named that user.
pub proof fn law_delete_records_before_removing(
    pre: CatalogRun,
    evs: Seq<Event>,
    effs: Seq<Effect>,
    k: int,
)
    requires
        pre.phase is FetchingForDelete,
        pre.phase->FetchingForDelete_id@.len() > 0,
        trace(pre, evs, effs),
        0 <= k < effs.len(),
        effs[k] is Remove,
    ensures
        evs[0] matches Event::Fetched(Some(_)),
        exists|j: int|
            0 <= j < k && (#[trigger] effs[j] matches Effect::Append { row } && row@ == row_view(
                pre.phase->FetchingForDelete_id@,
                "deleted"@,
                Seq::empty(),
                evs[0]->Fetched_0->Some_0@.name,
                Some(evs[0]->Fetched_0->Some_0@.name),
                opt_view(pre.actor),
            )),
        pre.actor is Some ==> (evs[1] matches Event::OwnerRow(r) && owns(
            pre.actor.unwrap()@,
            owner_row_view(r),
        )),
{
    let id = pre.phase->FetchingForDelete_id@;
    let evs1 = evs.drop_first();
    let effs1 = effs.drop_first();
    let mid = lemma_trace_first_step(pre, evs, effs);
    if mid.phase is Finished {
        lemma_trace_after_end(mid, evs1, effs1);
        assert(effs[0] is Finish);
        assert(false);
    }
    assert(evs[0] matches Event::Fetched(Some(_)));
    if pre.actor is None {
        assert(effs[0] is Append);
        assert(k > 0);
    } else {
        assert(effs[0] is LookupOwner);
        assert(k > 0);
        assert(effs1[k - 1] == effs[k]);
        let mid2 = lemma_trace_first_step(mid, evs1, effs1);
        assert(evs1[0] == evs[1]);
        assert(effs1[0] == effs[1]);
        if mid2.phase is Finished {
            lemma_trace_after_end(mid2, evs1.drop_first(), effs1.drop_first());
            assert(effs[1] is Finish);
            assert(false);
        }
        assert(evs[1] matches Event::OwnerRow(r) && owns(pre.actor.unwrap()@, owner_row_view(r)));
        assert(effs[1] is Append);
        assert(k > 1);
    }
}

/// Whoever deletes, a delete of an existing row that answers `Deleted` has
/// removed that row, and appended its `deleted` history row before: in any
/// run of a delete of `id` whose read found a row and that ends with
/// `Deleted`, some earlier effect is the removal of `id`, and an effect
/// before that appends the `deleted` row of the row read.
pub proof fn law_delete_of_existing_row_removes_it(pre: CatalogRun, evs: Seq<Event>, effs: Seq<Effect>)
    requires
        pre.phase is FetchingForDelete,
        pre.phase->FetchingForDelete_id@.len() > 0,
        trace(pre, evs, effs),
        effs.len() > 0,
        evs[0] matches Event::Fetched(Some(_)),
        effs.last() matches Effect::Finish(Outcome::Deleted),
    ensures
        exists|k: int|
            0 <= k < effs.len() - 1 && (#[trigger] effs[k] matches Effect::Remove { id } && id@
                == pre.phase->FetchingForDelete_id@) && exists|j: int|
                0 <= j < k && (#[trigger] effs[j] matches Effect::Append { row } && row@ == row_view(
                    pre.phase->FetchingForDelete_id@,
                    "deleted"@,
                    Seq::empty(),
                    evs[0]->Fetched_0->Some_0@.name,
                    Some(evs[0]->Fetched_0->Some_0@.name),
                    opt_view(pre.actor),
                )),
{
    let id = pre.phase->FetchingForDelete_id@;
    let mid = lemma_trace_first_step(pre, evs, effs);
    let evs1 = evs.drop_first();
    let effs1 = effs.drop_first();
    let ev = evs[0];
    if let Event::Fetched(Some(before)) = ev {
        if pre.actor is None {
            lemma_delete_history_start(
                pre.actor,
                id,
                crate::service::delete_mutation(before@, pre.actor),
                mid,
                effs[0],
            );
        }
    }
    assert(delete_goes_on(mid, effs[0], id));
    let k = lemma_delete_goes_on_removes(mid, effs[0], evs1, effs1, id, effs);
    law_delete_records_before_removing(pre, evs, effs, k);
}

/// Where a delete of `id` stands before its removal: checking the owner, or
/// appending the `delete` history rows on the way to the removal.
spec fn delete_tail(run: CatalogRun, id: Seq<char>) -> bool {
    ||| run.phase matches Phase::CheckingOwner { id: i, .. } && i@ == id
    ||| run.phase matches Phase::AppendingHistory { id: i, then: AfterHistory::Remove, .. } && i@ == id
}

/// After a step of such a run: it ended otherwise than `Deleted`, it is
/// still on its way, or it is removing `id` and asked for that removal.
spec fn delete_goes_on(run: CatalogRun, eff: Effect, id: Seq<char>) -> bool {
    ||| run.phase is Finished && !(eff matches Effect::Finish(Outcome::Deleted))
    ||| delete_tail(run, id) && !(eff is Finish)
    ||| (run.phase matches Phase::Removing { id: i } && i@ == id) && (eff matches Effect::Remove {
        id: r,
    } && r@ == id)
}

/// Starting a delete's history keeps to the delete's course.
proof fn lemma_delete_history_start(
    actor: Option<String>,
    id: Seq<char>,
    m: crate::side_effects::history_writer::MutationView,
    post: CatalogRun,
    eff: Effect,
)
    requires
        writes_history(actor, "delete", id, m, AfterHistory::Remove, post, eff),
    ensures
        delete_goes_on(post, eff, id),
{
}

/// One step from a delete's tail keeps to the delete's course.
proof fn lemma_delete_tail_step(pre: CatalogRun, ev: Event, post: CatalogRun, eff: Effect, id: Seq<char>)
    requires
        delete_tail(pre, id),
        pre.accepts(ev),
        step_spec(pre, ev, post, eff),
    ensures
        delete_goes_on(post, eff, id),
{
    if let Phase::CheckingOwner { id: i, before } = pre.phase {
        if let Event::OwnerRow(row) = ev {
            if owns(pre.actor.unwrap()@, owner_row_view(row)) {
                lemma_delete_history_start(
                    pre.actor,
                    i@,
                    crate::service::delete_mutation(before@, pre.actor),
                    post,
                    eff,
                );
            }
        }
    }
}

/// A delete run that, after the effect `eff0`, goes on as `effs1` and ends
/// with `Deleted` asked for the removal of `id` at some point of
/// `effs == [eff0] + effs1`.
proof fn lemma_delete_goes_on_removes(
    run: CatalogRun,
    eff0: Effect,
    evs1: Seq<Event>,
    effs1: Seq<Effect>,
    id: Seq<char>,
    effs: Seq<Effect>,
) -> (k: int)
    requires
        delete_goes_on(run, eff0, id),
        trace(run, evs1, effs1),
        effs.len() == effs1.len() + 1,
        effs[0] == eff0,
        forall|i: int| 0 <= i < effs1.len() ==> effs[i + 1] == #[trigger] effs1[i],
        effs.last() matches Effect::Finish(Outcome::Deleted),
    ensures
        0 <= k < effs.len(),
        effs[k] matches Effect::Remove { id: r } && r@ == id,
    decreases effs1.len(),
{
    if run.phase is Removing {
        0
    } else if run.phase is Finished {
        lemma_trace_after_end(run, evs1, effs1);
        assert(effs.last() == effs[0]);
        assert(false);
        0
    } else {
        assert(effs1.len() > 0) by {
            if effs1.len() == 0 {
                assert(effs.last() == effs[0]);
            }
        }
        let mid = lemma_trace_first_step(run, evs1, effs1);
        lemma_delete_tail_step(run, evs1[0], mid, effs1[0], id);
        assert(effs1.last() == effs.last());
        let k1 = lemma_delete_goes_on_removes(mid, effs1[0], evs1.drop_first(), effs1.drop_first(), id, effs1);
        assert(effs[k1 + 1] == effs1[k1]);
        k1 + 1
    }
}

/// From the middle of a change trail whose run goes on to a detail row: a
/// run that ends with the detail row appended every remaining row first, in
/// order, each acknowledged.
proof fn lemma_trail_before_detail(pre: CatalogRun, evs: Seq<Event>, effs: Seq<Effect>)
    requires
        pre.wf(),
        pre.phase is AppendingHistory,
        pre.phase->AppendingHistory_then is Detail,
        trace(pre, evs, effs),
        effs.len() > 0,
        effs.last() matches Effect::Finish(Outcome::Detail(_)),
    ensures
        ({
            let rows = pre.phase->AppendingHistory_rows@;
            let next = pre.phase->AppendingHistory_next;
            &&& effs.len() >= rows.len() - next
            &&& forall|i: int| 0 <= i < rows.len() - next ==> #[trigger] evs[i] is Done
            &&& forall|i: int|
                0 <= i < rows.len() - next - 1 ==> (#[trigger] effs[i] matches Effect::Append { row } && row@
                    == rows[next + 1 + i]@)
        }),
    decreases evs.len(),
{
    let rows = pre.phase->AppendingHistory_rows@;
    let next = pre.phase->AppendingHistory_next;
    let mid = lemma_trace_first_step(pre, evs, effs);
    let evs1 = evs.drop_first();
    let effs1 = effs.drop_first();
    if evs[0] is Failed {
        lemma_trace_after_end(mid, evs1, effs1);
        assert(effs.last() == effs[0]);
        assert(false);
    }
    if next + 1 < rows.len() {
        assert(effs.len() > 1) by {
            if effs.len() == 1 {
                assert(effs.last() == effs[0]);
            }
        }
        assert(effs1.last() == effs.last());
        lemma_trail_before_detail(mid, evs1, effs1);
        assert forall|i: int| 0 <= i < rows.len() - next implies #[trigger] evs[i] is Done by {
            if i > 0 {
                assert(evs[i] == evs1[i - 1]);
            }
        }
        assert forall|i: int| 0 <= i < rows.len() - next - 1 implies (#[trigger] effs[i] matches Effect::Append {
            row,
        } && row@ == rows[next + 1 + i]@) by {
            if i > 0 {
                assert(effs[i] == effs1[i - 1]);
            }
        }
    }
}

/// An update answers with its row only after recording every changed field:
/// in any run of an update of `id` that ends with the detail row, the
/// storage layer had the row (`before`) and stored it back (`after`), and
/// the effects right after the write append, in order, exactly the history
/// rows of the fields that differ between `before` and `after`.
pub proof fn law_update_records_changed_fields(pre: CatalogRun, evs: Seq<Event>, effs: Seq<Effect>)
    requires
        pre.phase is FetchingForUpdate,
        pre.phase->FetchingForUpdate_id@.len() > 0,
        trace(pre, evs, effs),
        effs.len() > 0,
        effs.last() matches Effect::Finish(Outcome::Detail(_)),
    ensures
        evs[0] matches Event::Fetched(Some(_)),
        evs[1] is Saved,
        ({
            let rows = spec_update_rows(
                fields_between(Some(evs[0]->Fetched_0->Some_0@), Some(evs[1]->Saved_0@)),
                pre.phase->FetchingForUpdate_id@,
                opt_view(pre.actor),
            );
            &&& effs.len() > rows.len() + 1
            &&& forall|i: int|
                0 <= i < rows.len() ==> (#[trigger] effs[1 + i] matches Effect::Append { row } && row@
                    == rows[i])
        }),
{
    let id = pre.phase->FetchingForUpdate_id@;
    let mid = lemma_trace_first_step(pre, evs, effs);
    let evs1 = evs.drop_first();
    let effs1 = effs.drop_first();
    if mid.phase is Finished {
        lemma_trace_after_end(mid, evs1, effs1);
        assert(effs.last() == effs[0]);
        assert(false);
    }
    assert(evs[0] matches Event::Fetched(Some(_)));
    assert(effs.len() > 1) by {
        if effs.len() == 1 {
            assert(effs.last() == effs[0]);
        }
    }
    let mid2 = lemma_trace_first_step(mid, evs1, effs1);
    assert(evs1[0] == evs[1]);
    assert(effs1[0] == effs[1]);
    let evs2 = evs1.drop_first();
    let effs2 = effs1.drop_first();
    if evs[1] is Failed {
        lemma_trace_after_end(mid2, evs2, effs2);
        assert(effs.last() == effs[1]);
        assert(false);
    }
    assert(evs[1] is Saved);
    let before = evs[0]->Fetched_0->Some_0@;
    let after = evs[1]->Saved_0@;
    let rows = spec_update_rows(fields_between(Some(before), Some(after)), id, opt_view(pre.actor));
    if rows.len() > 0 {
        assert(effs[1] matches Effect::Append { row } && row@ == rows[0]);
        assert(mid2.phase is AppendingHistory);
        assert(effs.len() > 2) by {
            if effs.len() == 2 {
                assert(effs.last() == effs[1]);
            }
        }
        assert(effs2.last() == effs.last());
        lemma_trail_before_detail(mid2, evs2, effs2);
        assert(mid2.phase->AppendingHistory_rows@.map_values(|r: HistoryRow| r@) == rows);
        assert forall|i: int| 0 <= i < rows.len() implies (#[trigger] effs[1 + i] matches Effect::Append {
            row,
        } && row@ == rows[i]) by {
            if i > 0 {
                assert(effs[1 + i] == effs2[i - 1]);
                assert(mid2.phase->AppendingHistory_rows@[i]@ == rows[i]);
            }
        }
    }
}

/// The rows labelled so far carry the fields of the query's rows.
pub open spec fn labelled_prefix(rows: Seq<crate::types::TagSnapshot>, out: Seq<crate::types::TagRowDto>) -> bool {
    &&& out.len() < rows.len()
    &&& forall|i: int| 0 <= i < out.len() ==> #[trigger] out[i]@ == spec_row_dto(rows[i]@, out[i]@.owner_display)
}

/// From the middle of labelling a list: a run that ends with the list
/// answers one row per query row, in order, with each row's fields.
proof fn lemma_labelling_to_list(pre: CatalogRun, evs: Seq<Event>, effs: Seq<Effect>)
    requires
        pre.phase is LabelingRows,
        pre.actor is Some,
        labelled_prefix(pre.phase->LabelingRows_rows@, pre.phase->LabelingRows_out@),
        trace(pre, evs, effs),
        effs.len() > 0,
        effs.last() matches Effect::Finish(Outcome::Listed(_)),
    ensures
        ({
            let rows = pre.phase->LabelingRows_rows@;
            let v = effs.last()->Finish_0->Listed_0@;
            &&& v.len() == rows.len()
            &&& forall|i: int| 0 <= i < v.len() ==> #[trigger] v[i]@ == spec_row_dto(rows[i]@, v[i]@.owner_display)
        }),
    decreases evs.len(),
{
    let rows_vec = pre.phase->LabelingRows_rows;
    let out_vec = pre.phase->LabelingRows_out;
    let rows = rows_vec@;
    let out = out_vec@;
    let mid = lemma_trace_first_step(pre, evs, effs);
    let evs1 = evs.drop_first();
    let effs1 = effs.drop_first();
    let label = match evs[0] {
        Event::OwnerRow(r) => spec_owner_label(opt_view(pre.actor), owner_row_view(r)),
        _ => spec_owner_label(opt_view(pre.actor), None),
    };
    assert(crate::service::labels_row(pre.actor, rows_vec, out_vec, label, mid, effs[0]));
    let k = out.len();
    let labelled = crate::service::row_dtos_view(out).push(spec_row_dto(rows[k as int]@, label));
    if k + 1 == rows.len() {
        lemma_trace_after_end(mid, evs1, effs1);
        assert(effs.last() == effs[0]);
        let v = effs[0]->Finish_0->Listed_0@;
        assert(crate::service::row_dtos_view(v) == labelled);
        assert(crate::service::row_dtos_view(v).len() == v.len());
        assert forall|i: int| 0 <= i < v.len() implies #[trigger] v[i]@ == spec_row_dto(rows[i]@, v[i]@.owner_display) by {
            assert(crate::service::row_dtos_view(v)[i] == v[i]@);
            if i < k {
                assert(crate::service::row_dtos_view(out)[i] == out[i]@);
            }
        }
    } else {
        let o = mid.phase->LabelingRows_out@;
        assert(crate::service::row_dtos_view(o) == labelled);
        assert(crate::service::row_dtos_view(o).len() == o.len());
        assert forall|i: int| 0 <= i < o.len() implies #[trigger] o[i]@ == spec_row_dto(rows[i]@, o[i]@.owner_display) by {
            assert(crate::service::row_dtos_view(o)[i] == o[i]@);
            if i < k {
                assert(crate::service::row_dtos_view(out)[i] == out[i]@);
            }
        }
        assert(effs.len() > 1) by {
            if effs.len() == 1 {
                assert(effs.last() == effs[0]);
            }
        }
        assert(effs1.last() == effs.last());
        lemma_labelling_to_list(mid, evs1, effs1);
    }
}

/// A list answers exactly the rows its query found: in any run of a list
/// that ends with the list, the query's answer was some rows, and the list
/// holds one row per query row, in the query's order, each carrying that
/// row's id, name, taxonomy, description and update time.
pub proof fn law_list_answers_query_rows(pre: CatalogRun, evs: Seq<Event>, effs: Seq<Effect>)
    requires
        pre.phase is Querying,
        trace(pre, evs, effs),
        effs.len() > 0,
        effs.last() matches Effect::Finish(Outcome::Listed(_)),
    ensures
        evs[0] is Rows,
        ({
            let rows = evs[0]->Rows_0@;
            let v = effs.last()->Finish_0->Listed_0@;
            &&& v.len() == rows.len()
            &&& forall|i: int| 0 <= i < v.len() ==> #[trigger] v[i]@ == spec_row_dto(rows[i]@, v[i]@.owner_display)
            &&& forall|i: int|
                0 <= i < v.len() ==> {
                    &&& (#[trigger] v[i]).name@ == rows[i].name@
                    &&& opt_view(v[i].taxonomy) == opt_view(rows[i].taxonomy)
                    &&& opt_view(v[i].description) == opt_view(rows[i].description)
                    &&& v[i].updated_at == rows[i].updated_at
                    &&& v[i].id@ == match rows[i].id {
                        Some(x) => x@,
                        None => Seq::empty(),
                    }
                }
        }),
{
    let mid = lemma_trace_first_step(pre, evs, effs);
    let evs1 = evs.drop_first();
    let effs1 = effs.drop_first();
    if mid.phase is Finished {
        lemma_trace_after_end(mid, evs1, effs1);
        assert(effs.last() == effs[0]);
    } else {
        assert(evs[0] is Rows);
        assert(mid.phase->LabelingRows_out@.len() == 0);
        assert(effs.len() > 1) by {
            if effs.len() == 1 {
                assert(effs.last() == effs[0]);
            }
        }
        assert(effs1.last() == effs.last());
        lemma_labelling_to_list(mid, evs1, effs1);
    }
    let rows = evs[0]->Rows_0@;
    let v = effs.last()->Finish_0->Listed_0@;
    assert forall|i: int| 0 <= i < v.len() implies {
        &&& (#[trigger] v[i]).name@ == rows[i].name@
        &&& opt_view(v[i].taxonomy) == opt_view(rows[i].taxonomy)
        &&& opt_view(v[i].description) == opt_view(rows[i].description)
        &&& v[i].updated_at == rows[i].updated_at
        &&& v[i].id@ == match rows[i].id {
            Some(x) => x@,
            None => Seq::empty(),
        }
    } by {
        assert(v[i]@ == spec_row_dto(rows[i]@, v[i]@.owner_display));
    }
}

/// A get answers the stored row: in any run of a get of `id` that ends
/// with a row, the storage layer had a row, and the answer carries its
/// fields (filed under `id` when the stored row carries no id).
pub proof fn law_get_answers_stored_row(pre: CatalogRun, evs: Seq<Event>, effs: Seq<Effect>)
    requires
        pre.phase is FetchingForGet,
        trace(pre, evs, effs),
        effs.len() > 0,
        effs.last() matches Effect::Finish(Outcome::Found(Some(_))),
    ensures
        evs[0] matches Event::Fetched(Some(_)),
        ({
            let d = effs.last()->Finish_0->Found_0->Some_0@;
            d == crate::service::spec_detail_dto(
                evs[0]->Fetched_0->Some_0@,
                pre.phase->FetchingForGet_id@,
                d.owner_display,
            )
        }),
{
    let mid = lemma_trace_first_step(pre, evs, effs);
    let evs1 = evs.drop_first();
    let effs1 = effs.drop_first();
    if mid.phase is Finished {
        lemma_trace_after_end(mid, evs1, effs1);
        assert(effs.last() == effs[0]);
    } else {
        assert(evs[0] matches Event::Fetched(Some(_)));
        assert(effs.len() > 1) by {
            if effs.len() == 1 {
                assert(effs.last() == effs[0]);
            }
        }
        let mid2 = lemma_trace_first_step(mid, evs1, effs1);
        lemma_trace_after_end(mid2, evs1.drop_first(), effs1.drop_first());
        assert(effs.last() == effs1[0]);
    }
}

} // verus!
