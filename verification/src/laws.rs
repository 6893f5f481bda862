//! What holds of the service when its statements run against a table that
//! behaves as the model in [`crate::table`] says.

use vstd::prelude::*;

use crate::handler::{
    create_note_spec, create_statement_spec, failure_spec, flag_text, get_all_notes_spec,
    get_note_spec, health_spec, is_unique_violation, list_statement_spec, not_found_spec,
    unique_violation_phrase, update_plan_spec, written_note_spec,
};
use crate::model::{DbErrorView, NoteView};
use crate::response::{ResponseView, Status};
use crate::schema::{CreateNoteView, FilterOptions, UpdateNoteView};
use crate::statement::StatementView;
use crate::table::{
    executes, inserted, lemma_inserted, lemma_removed, lemma_replaced, lemma_slot, lists, Table,
};
use crate::text::occurs_at;

verus! {

/// Creating a note whose title no note holds is answered with `201` and
/// an envelope that holds the new note: a generated identifier, the fields
/// of the request (an absent category as the empty text, an absent flag as
/// false) and equal times of creation and update. The table then holds the
/// note, once.
pub proof fn law_create_with_unique_title(
    pre: Table,
    body: CreateNoteView,
    outcome: Result<NoteView, DbErrorView>,
    post: Table,
)
    requires
        pre.wf(),
        !pre.has_title(body.title),
        executes(pre, create_statement_spec(body), outcome, post),
    ensures
        outcome is Ok,
        create_note_spec(outcome) == ResponseView::data(Status::Created, outcome->Ok_0),
        create_note_spec(outcome).status.code_spec() == 201,
        !pre.has_id(outcome->Ok_0.id),
        outcome->Ok_0.title == body.title,
        outcome->Ok_0.content == body.content,
        outcome->Ok_0.category == match body.category {
            Some(category) => category,
            None => Seq::empty(),
        },
        outcome->Ok_0.published == match body.published {
            Some(flag) => flag,
            None => false,
        },
        outcome->Ok_0.created_at == outcome->Ok_0.updated_at,
        post.wf(),
        post.has_id(outcome->Ok_0.id),
        post.row(outcome->Ok_0.id) == outcome->Ok_0,
        post.rows.len() == pre.rows.len() + 1,
{
    lemma_inserted(pre, outcome->Ok_0, post);
}

/// Creating a note whose title a note already holds is answered with
/// `409`, and the table stays as it was.
pub proof fn law_create_with_taken_title(
    pre: Table,
    body: CreateNoteView,
    outcome: Result<NoteView, DbErrorView>,
    post: Table,
)
    requires
        pre.has_title(body.title),
        executes(pre, create_statement_spec(body), outcome, post),
    ensures
        create_note_spec(outcome) == ResponseView::text(
            Status::Conflict,
            "Note with that title already exists"@,
        ),
        create_note_spec(outcome).status.code_spec() == 409,
        post == pre,
{
}

/// Getting a note by an identifier that no note has is answered with
/// `404`.
pub proof fn law_get_missing(pre: Table, id: u128, outcome: Result<NoteView, DbErrorView>, post: Table)
    requires
        !pre.has_id(id),
        executes(pre, (StatementView::SelectById { id }), outcome, post),
    ensures
        get_note_spec(id, outcome) == not_found_spec(id),
        get_note_spec(id, outcome).status.code_spec() == 404,
        post == pre,
{
}

/// Getting a note by the identifier of a note is answered with `200` and
/// exactly that note.
pub proof fn law_get_present(pre: Table, id: u128, outcome: Result<NoteView, DbErrorView>, post: Table)
    requires
        pre.has_id(id),
        executes(pre, (StatementView::SelectById { id }), outcome, post),
    ensures
        get_note_spec(id, outcome) == ResponseView::data(Status::Success, pre.row(id)),
        get_note_spec(id, outcome).status.code_spec() == 200,
        pre.row(id).id == id,
        post == pre,
{
}

/// Listing with valid options is answered with `200` and the notes of the
/// page asked for: in identifier order, the notes after those of the pages
/// before, at most as many as the limit, with their count.
pub proof fn law_list_page(
    pre: Table,
    options: FilterOptions,
    outcome: Result<Seq<NoteView>, DbErrorView>,
)
    requires
        pre.ordered(),
        options.valid(),
        lists(pre, list_statement_spec(options)->Some_0, outcome),
    ensures
        outcome is Ok,
        get_all_notes_spec(outcome) == ResponseView::list(Status::Success, outcome->Ok_0),
        get_all_notes_spec(outcome).status.code_spec() == 200,
        outcome->Ok_0.len() <= options.page_size(),
        outcome->Ok_0.len() <= pre.rows.len(),
        options.skipped() + options.page_size() <= pre.rows.len() ==> outcome->Ok_0.len()
            == options.page_size(),
        options.skipped() >= pre.rows.len() ==> outcome->Ok_0.len() == 0,
        forall|i: int|
            0 <= i < outcome->Ok_0.len() ==> outcome->Ok_0[i] == pre.rows[options.skipped() + i],
        forall|i: int, j: int|
            0 <= i < j < outcome->Ok_0.len() ==> outcome->Ok_0[i].id < outcome->Ok_0[j].id,
        options.skipped() < pre.rows.len() < options.skipped() + options.page_size()
            ==> outcome->Ok_0.len() == pre.rows.len() - options.skipped(),
{
    assert(options.skipped() >= 0) by (nonlinear_arith)
        requires
            options.skipped() == (options.page_number() - 1) * options.page_size(),
            options.page_number() >= 1,
            options.page_size() >= 1,
    ;
}

/// The answer to an update request: not found where the lookup failed,
/// else what the outcome of the update is turned into.
pub open spec fn update_answer(
    id: u128,
    body: UpdateNoteView,
    now: int,
    lookup: Result<NoteView, DbErrorView>,
    outcome: Result<NoteView, DbErrorView>,
) -> ResponseView {
    match update_plan_spec(id, body, lookup, now) {
        Ok(_) => written_note_spec(outcome),
        Err(answer) => answer,
    }
}

/// An update request runs on `pre`: the lookup, then, where the note was
/// found, the update planned from it, which leaves `post`.
pub open spec fn update_runs(
    pre: Table,
    id: u128,
    body: UpdateNoteView,
    now: int,
    lookup: Result<NoteView, DbErrorView>,
    outcome: Result<NoteView, DbErrorView>,
    post: Table,
) -> bool {
    &&& executes(pre, (StatementView::SelectById { id }), lookup, pre)
    &&& match update_plan_spec(id, body, lookup, now) {
        Ok(statement) => executes(pre, statement, outcome, post),
        Err(_) => post == pre,
    }
}

/// The text in the `published` member of an update request is absent or
/// one of the two forms of a flag.
pub open spec fn flag_is_plain(body: UpdateNoteView) -> bool {
    match body.published {
        Some(text) => text == flag_text(true) || text == flag_text(false),
        None => true,
    }
}

/// The note that an update request asks for, given the note as it was.
pub open spec fn patched(current: NoteView, body: UpdateNoteView, now: int) -> NoteView {
    NoteView {
        id: current.id,
        title: match body.title {
            Some(title) => title,
            None => current.title,
        },
        content: match body.content {
            Some(content) => content,
            None => current.content,
        },
        category: match body.category {
            Some(category) => category,
            None => current.category,
        },
        published: match body.published {
            Some(text) => text == flag_text(true),
            None => current.published,
        },
        created_at: current.created_at,
        updated_at: now,
    }
}

/// The two forms of a flag differ.
pub proof fn lemma_flag_texts_differ()
    ensures
        flag_text(true) != flag_text(false),
{
    reveal_strlit("true");
    reveal_strlit("false");
    assert(flag_text(true).len() == 4);
    assert(flag_text(false).len() == 5);
}

/// Updating a note whose new title no other note holds, with a plain flag,
/// is answered with `200` and the note as asked for: each absent field as
/// it was, the time of the update as read from the clock, identifier and
/// time of creation unchanged. The table holds the new note in place of the
/// old one.
pub proof fn law_update_present(
    pre: Table,
    id: u128,
    body: UpdateNoteView,
    now: int,
    lookup: Result<NoteView, DbErrorView>,
    outcome: Result<NoteView, DbErrorView>,
    post: Table,
)
    requires
        pre.ordered(),
        pre.has_id(id),
        flag_is_plain(body),
        !pre.title_held_by_other(id, patched(pre.row(id), body, now).title),
        update_runs(pre, id, body, now, lookup, outcome, post),
    ensures
        lookup == Ok::<NoteView, DbErrorView>(pre.row(id)),
        outcome == Ok::<NoteView, DbErrorView>(patched(pre.row(id), body, now)),
        update_answer(id, body, now, lookup, outcome) == ResponseView::message(
            Status::Success,
            patched(pre.row(id), body, now),
        ),
        update_answer(id, body, now, lookup, outcome).status.code_spec() == 200,
        post.rows == pre.rows.update(pre.position(id), patched(pre.row(id), body, now)),
        post.ordered(),
        post.has_id(id),
        post.row(id) == patched(pre.row(id), body, now),
        post.rows.len() == pre.rows.len(),
{
    lemma_flag_texts_differ();
    let k = pre.position(id);
    assert(pre.holds_at(k, id));
    lemma_replaced(pre, id, outcome->Ok_0, post);
}

/// Updating only the content of a note keeps its title, category and flag,
/// and sets the time of the update to the clock's reading; where that
/// reading is later than the note's creation, so is the time of the update.
pub proof fn law_update_content_only(
    pre: Table,
    id: u128,
    content: Seq<char>,
    now: int,
    lookup: Result<NoteView, DbErrorView>,
    outcome: Result<NoteView, DbErrorView>,
    post: Table,
)
    requires
        pre.wf(),
        pre.has_id(id),
        now > pre.row(id).created_at,
        update_runs(
            pre,
            id,
            (UpdateNoteView { title: None, content: Some(content), category: None, published: None }),
            now,
            lookup,
            outcome,
            post,
        ),
    ensures
        outcome is Ok,
        update_answer(
            id,
            (UpdateNoteView { title: None, content: Some(content), category: None, published: None }),
            now,
            lookup,
            outcome,
        ) == ResponseView::message(Status::Success, outcome->Ok_0),
        outcome->Ok_0.id == id,
        outcome->Ok_0.title == pre.row(id).title,
        outcome->Ok_0.category == pre.row(id).category,
        outcome->Ok_0.published == pre.row(id).published,
        outcome->Ok_0.content == content,
        outcome->Ok_0.created_at == pre.row(id).created_at,
        outcome->Ok_0.updated_at == now,
        outcome->Ok_0.updated_at > outcome->Ok_0.created_at,
        post.wf(),
        post.row(id) == outcome->Ok_0,
{
    let body = UpdateNoteView {
        title: None,
        content: Some(content),
        category: None,
        published: None,
    };
    let k = pre.position(id);
    assert(pre.holds_at(k, id));
    assert(!pre.title_held_by_other(id, pre.row(id).title)) by {
        if pre.title_held_by_other(id, pre.row(id).title) {
            let i = choose|i: int|
                pre.titled_at(i, pre.row(id).title) && pre.rows[i].id != id;
            if i < k {
                assert(pre.rows[i].title != pre.rows[k].title);
            } else if k < i {
                assert(pre.rows[k].title != pre.rows[i].title);
            }
        }
    }
    law_update_present(pre, id, body, now, lookup, outcome, post);
    lemma_replaced(pre, id, outcome->Ok_0, post);
}

/// Updating a note that does not exist is answered with `404`, and the
/// table stays as it was.
pub proof fn law_update_missing(
    pre: Table,
    id: u128,
    body: UpdateNoteView,
    now: int,
    lookup: Result<NoteView, DbErrorView>,
    outcome: Result<NoteView, DbErrorView>,
    post: Table,
)
    requires
        !pre.has_id(id),
        update_runs(pre, id, body, now, lookup, outcome, post),
    ensures
        update_answer(id, body, now, lookup, outcome) == not_found_spec(id),
        update_answer(id, body, now, lookup, outcome).status.code_spec() == 404,
        post == pre,
{
}

/// The lookup and the update of one request are two statements. Where the
/// note is deleted between them, the update is answered with `500`, and
/// the table stays as the delete left it.
pub proof fn law_update_after_delete(
    pre: Table,
    id: u128,
    body: UpdateNoteView,
    now: int,
    lookup: Result<NoteView, DbErrorView>,
    between: Table,
    outcome: Result<NoteView, DbErrorView>,
    post: Table,
)
    requires
        pre.has_id(id),
        executes(pre, (StatementView::SelectById { id }), lookup, pre),
        !between.has_id(id),
        executes(between, update_plan_spec(id, body, lookup, now)->Ok_0, outcome, post),
    ensures
        update_plan_spec(id, body, lookup, now) is Ok,
        outcome is Err,
        update_answer(id, body, now, lookup, outcome) == failure_spec(outcome->Err_0),
        update_answer(id, body, now, lookup, outcome).status.code_spec() == 500,
        post == between,
{
}

/// Deleting a note is answered with `200` and the removed note; the table
/// no longer holds it, and getting it afterwards is answered with `404`.
pub proof fn law_delete_then_get(
    pre: Table,
    id: u128,
    deleted: Result<NoteView, DbErrorView>,
    post: Table,
    fetched: Result<NoteView, DbErrorView>,
    last: Table,
)
    requires
        pre.ordered(),
        pre.has_id(id),
        executes(pre, (StatementView::DeleteById { id }), deleted, post),
        executes(post, (StatementView::SelectById { id }), fetched, last),
    ensures
        written_note_spec(deleted) == ResponseView::message(Status::Success, pre.row(id)),
        written_note_spec(deleted).status.code_spec() == 200,
        !post.has_id(id),
        post.rows.len() == pre.rows.len() - 1,
        forall|other: u128| other != id ==> (post.has_id(other) <==> pre.has_id(other)),
        get_note_spec(id, fetched) == not_found_spec(id),
        get_note_spec(id, fetched).status.code_spec() == 404,
        last == post,
{
    lemma_removed(pre, id, post);
}

/// Deleting a note that does not exist is answered with `500` and the
/// diagnostic text of the failure, and the table stays as it was.
pub proof fn law_delete_missing(
    pre: Table,
    id: u128,
    deleted: Result<NoteView, DbErrorView>,
    post: Table,
)
    requires
        !pre.has_id(id),
        executes(pre, (StatementView::DeleteById { id }), deleted, post),
    ensures
        deleted is Err,
        written_note_spec(deleted) == failure_spec(deleted->Err_0),
        written_note_spec(deleted).status.code_spec() == 500,
        post == pre,
{
}

/// Create, get, update, get, delete, get: each answer shows the note as
/// the step before left it, and the last one is `404`. The table holds the
/// note once after the create and after the update, and is back to what it
/// was after the delete.
pub proof fn law_round_trip(
    start: Table,
    body: CreateNoteView,
    created: Result<NoteView, DbErrorView>,
    t1: Table,
    first: Result<NoteView, DbErrorView>,
    patch: UpdateNoteView,
    now: int,
    lookup: Result<NoteView, DbErrorView>,
    updated: Result<NoteView, DbErrorView>,
    t2: Table,
    second: Result<NoteView, DbErrorView>,
    deleted: Result<NoteView, DbErrorView>,
    t3: Table,
    third: Result<NoteView, DbErrorView>,
)
    requires
        start.wf(),
        !start.has_title(body.title),
        executes(start, create_statement_spec(body), created, t1),
        executes(t1, (StatementView::SelectById { id: created->Ok_0.id }), first, t1),
        flag_is_plain(patch),
        !t1.title_held_by_other(created->Ok_0.id, patched(created->Ok_0, patch, now).title),
        update_runs(t1, created->Ok_0.id, patch, now, lookup, updated, t2),
        executes(t2, (StatementView::SelectById { id: created->Ok_0.id }), second, t2),
        executes(t2, (StatementView::DeleteById { id: created->Ok_0.id }), deleted, t3),
        executes(t3, (StatementView::SelectById { id: created->Ok_0.id }), third, t3),
    ensures
        created is Ok,
        create_note_spec(created) == ResponseView::data(Status::Created, created->Ok_0),
        get_note_spec(created->Ok_0.id, first) == ResponseView::data(
            Status::Success,
            created->Ok_0,
        ),
        update_answer(created->Ok_0.id, patch, now, lookup, updated) == ResponseView::message(
            Status::Success,
            patched(created->Ok_0, patch, now),
        ),
        get_note_spec(created->Ok_0.id, second) == ResponseView::data(
            Status::Success,
            patched(created->Ok_0, patch, now),
        ),
        written_note_spec(deleted) == ResponseView::message(
            Status::Success,
            patched(created->Ok_0, patch, now),
        ),
        get_note_spec(created->Ok_0.id, third) == not_found_spec(created->Ok_0.id),
        t1.rows.len() == start.rows.len() + 1,
        t2.rows.len() == start.rows.len() + 1,
        t3 == start,
{
    let note = created->Ok_0;
    let id = note.id;
    lemma_inserted(start, note, t1);
    law_update_present(t1, id, patch, now, lookup, updated, t2);
    lemma_replaced(t1, id, patched(note, patch, now), t2);
    lemma_removed(t2, id, t3);
    let k = t1.position(id);
    assert(t1.holds_at(k, id));
    assert(t3.rows =~= t1.rows.remove(k));
}

/// Every statement leaves a well-formed table well formed: titles stay
/// unique, identifiers stay where they are, and no note is updated before
/// it was created, as long as the clock of an update does not stand before
/// the creation of the note. A note that stays keeps its time of creation.
pub proof fn law_table_stays_well_formed(
    pre: Table,
    statement: StatementView,
    outcome: Result<NoteView, DbErrorView>,
    post: Table,
)
    requires
        pre.wf(),
        executes(pre, statement, outcome, post),
        statement matches StatementView::Update { updated_at, id, .. } ==> (pre.has_id(id)
            ==> pre.row(id).created_at <= updated_at),
    ensures
        post.wf(),
        forall|id: u128|
            pre.has_id(id) && post.has_id(id) ==> post.row(id).created_at == pre.row(
                id,
            ).created_at,
{
    match statement {
        StatementView::Insert { .. } => {
            if outcome is Ok {
                lemma_inserted(pre, outcome->Ok_0, post);
            }
        },
        StatementView::Update { id, .. } => {
            if outcome is Ok {
                lemma_replaced(pre, id, outcome->Ok_0, post);
            }
        },
        StatementView::DeleteById { id } => {
            if outcome is Ok {
                lemma_removed(pre, id, post);
            }
        },
        _ => {},
    }
}

/// Every answer names, in the `status` member of its envelope, the status
/// it is sent under, as three decimal digits.
pub proof fn law_envelope_names_status(
    id: u128,
    body: UpdateNoteView,
    now: int,
    lookup: Result<NoteView, DbErrorView>,
    row: Result<NoteView, DbErrorView>,
    rows: Result<Seq<NoteView>, DbErrorView>,
)
    ensures
        health_spec().consistent(),
        create_note_spec(row).consistent(),
        get_note_spec(id, row).consistent(),
        get_all_notes_spec(rows).consistent(),
        update_answer(id, body, now, lookup, row).consistent(),
        written_note_spec(row).consistent(),
{
}

/// The model answers every statement that returns one row: on an ordered
/// table there is an outcome and a table after it, for an insert as long as
/// some identifier is still free.
pub proof fn law_every_statement_is_answered(pre: Table, statement: StatementView, fresh: u128)
    requires
        pre.ordered(),
        !(statement is SelectPage),
        statement is Insert ==> !pre.has_id(fresh),
    ensures
        exists|outcome: Result<NoteView, DbErrorView>, post: Table|
            executes(pre, statement, outcome, post),
{
    let refused = Err::<NoteView, DbErrorView>(
        DbErrorView { message: unique_violation_phrase(), detail: Seq::empty() },
    );
    assert(is_unique_violation(refused->Err_0)) by {
        let phrase = unique_violation_phrase();
        assert(phrase.subrange(0, phrase.len() as int) =~= phrase);
        assert(occurs_at(phrase, phrase, 0));
    }
    match statement {
        StatementView::Insert { title, content, category, published } => {
            if pre.has_title(title) {
                assert(executes(pre, statement, refused, pre));
            } else {
                let row = NoteView {
                    id: fresh,
                    title,
                    content,
                    category,
                    published: match published {
                        Some(flag) => flag,
                        None => false,
                    },
                    created_at: 0,
                    updated_at: 0,
                };
                let k = lemma_slot(pre, fresh);
                let post = Table { rows: pre.rows.insert(k, row) };
                assert forall|i: int, j: int| 0 <= i < j < post.rows.len() implies post.rows[i].id
                    < post.rows[j].id by {
                    let a = if i < k { i } else { i - 1 };
                    let b = if j < k { j } else { j - 1 };
                    if i != k {
                        assert(post.rows[i] == pre.rows[a]);
                    }
                    if j != k {
                        assert(post.rows[j] == pre.rows[b]);
                    }
                }
                assert(inserted(pre, row, post));
                assert(executes(pre, statement, Ok::<NoteView, DbErrorView>(row), post));
            }
        },
        StatementView::SelectById { id } => {
            if pre.has_id(id) {
                assert(executes(pre, statement, Ok::<NoteView, DbErrorView>(pre.row(id)), pre));
            } else {
                assert(executes(pre, statement, refused, pre));
            }
        },
        StatementView::SelectPage { .. } => {},
        StatementView::Update { title, content, category, published, updated_at, id } => {
            if !pre.has_id(id) || pre.title_held_by_other(id, title) {
                assert(executes(pre, statement, refused, pre));
            } else {
                lemma_flag_texts_differ();
                let row = NoteView {
                    id,
                    title,
                    content,
                    category,
                    published: published == flag_text(true),
                    created_at: pre.row(id).created_at,
                    updated_at,
                };
                let post = Table { rows: pre.rows.update(pre.position(id), row) };
                assert(executes(pre, statement, Ok::<NoteView, DbErrorView>(row), post));
            }
        },
        StatementView::DeleteById { id } => {
            if pre.has_id(id) {
                let post = Table { rows: pre.rows.remove(pre.position(id)) };
                assert(executes(pre, statement, Ok::<NoteView, DbErrorView>(pre.row(id)), post));
            } else {
                assert(executes(pre, statement, refused, pre));
            }
        },
    }
}

} // verus!
