//! One request at a time: which statement a request binds, and which
//! response the outcome of that statement is turned into. The caller runs
//! the statements; nothing here touches the database.

use vstd::prelude::*;
use vstd::string::*;

use crate::clock::now_micros;
use crate::ident::{hyphenated, uuid_text};
use crate::model::{row_outcome_view, rows_outcome_view, DbError, DbErrorView, NoteModel, NoteView};
use crate::response::{Response, ResponseView, Status};
use crate::schema::{CreateNoteSchema, CreateNoteView, FilterOptions, UpdateNoteSchema, UpdateNoteView};
use crate::statement::{Statement, StatementView};
use crate::text::{contains_text, is_substring};

verus! {

/// The words by which the database reports a violated uniqueness
/// constraint.
pub open spec fn unique_violation_phrase() -> Seq<char> {
    "duplicate key value violates unique constraint"@
}

/// The failure is a violated uniqueness constraint: its message holds the
/// phrase for it.
pub open spec fn is_unique_violation(error: DbErrorView) -> bool {
    is_substring(unique_violation_phrase(), error.message)
}

/// Whether the failure is a violated uniqueness constraint.
pub fn reports_unique_violation(error: &DbError) -> (found: bool)
    ensures
        found == is_unique_violation(error@),
{
    contains_text(error.message.as_str(), "duplicate key value violates unique constraint")
}

/// The text of a flag as the update statement binds it.
pub open spec fn flag_text(flag: bool) -> Seq<char> {
    if flag {
        "true"@
    } else {
        "false"@
    }
}

/// The text of a flag as the update statement binds it.
pub fn flag_to_text(flag: bool) -> (text: String)
    ensures
        text@ == flag_text(flag),
{
    if flag {
        String::from_str("true")
    } else {
        String::from_str("false")
    }
}

/// The answer to a liveness probe.
pub open spec fn health_spec() -> ResponseView {
    ResponseView::text(Status::Success, "Up and Running really fast"@)
}

/// The answer for a note that was looked for and not found.
pub open spec fn not_found_spec(id: u128) -> ResponseView {
    ResponseView::text(Status::NotFound, "Note with ID: "@ + uuid_text(id) + " not found"@)
}

/// The answer for a failure that is passed on with its diagnostic text.
pub open spec fn failure_spec(error: DbErrorView) -> ResponseView {
    ResponseView::text(Status::InternalServerError, error.detail)
}

/// The insert that a create request binds: an absent category is bound as
/// the empty text.
pub open spec fn create_statement_spec(body: CreateNoteView) -> StatementView {
    StatementView::Insert {
        title: body.title,
        content: body.content,
        category: match body.category {
            Some(category) => category,
            None => Seq::empty(),
        },
        published: body.published,
    }
}

/// The answer to a create request, given the outcome of its insert.
pub open spec fn create_note_spec(outcome: Result<NoteView, DbErrorView>) -> ResponseView {
    match outcome {
        Ok(note) => ResponseView::data(Status::Created, note),
        Err(error) => if is_unique_violation(error) {
            ResponseView::text(Status::Conflict, "Note with that title already exists"@)
        } else {
            failure_spec(error)
        },
    }
}

/// The answer to a get-one request, given the outcome of its select.
pub open spec fn get_note_spec(id: u128, outcome: Result<NoteView, DbErrorView>) -> ResponseView {
    match outcome {
        Ok(note) => ResponseView::data(Status::Success, note),
        Err(_) => not_found_spec(id),
    }
}

/// The select that a list request binds, where its options are valid.
pub open spec fn list_statement_spec(options: FilterOptions) -> Option<StatementView> {
    if options.valid() {
        Some(StatementView::SelectPage { limit: options.page_size(), offset: options.skipped() })
    } else {
        None
    }
}

/// The answer to a list request, given the outcome of its select.
pub open spec fn get_all_notes_spec(outcome: Result<Seq<NoteView>, DbErrorView>) -> ResponseView {
    match outcome {
        Ok(notes) => ResponseView::list(Status::Success, notes),
        Err(_) => ResponseView::text(
            Status::InternalServerError,
            "Something bad happened while fetching all note items"@,
        ),
    }
}

/// The update that an update request binds at time `now` for the note
/// `current`: each absent field keeps the note's value, the flag as text.
pub open spec fn update_statement_spec(
    id: u128,
    body: UpdateNoteView,
    current: NoteView,
    now: int,
) -> StatementView {
    StatementView::Update {
        title: match body.title {
            Some(title) => title,
            None => current.title,
        },
        content: match body.content {
            Some(content) => content,
            None => current.content,
        },
        category: match body.category {
            Some(category) => category,
            None => current.category,
        },
        published: match body.published {
            Some(published) => published,
            None => flag_text(current.published),
        },
        updated_at: now,
        id,
    }
}

/// What follows the lookup of an update request at time `now`: the update
/// to run, or the answer where the note was not found.
pub open spec fn update_plan_spec(
    id: u128,
    body: UpdateNoteView,
    lookup: Result<NoteView, DbErrorView>,
    now: int,
) -> Result<StatementView, ResponseView> {
    match lookup {
        Ok(current) => Ok(update_statement_spec(id, body, current, now)),
        Err(_) => Err(not_found_spec(id)),
    }
}

/// The answer to an update or delete request, given the outcome of the
/// statement that returns the written row.
pub open spec fn written_note_spec(outcome: Result<NoteView, DbErrorView>) -> ResponseView {
    match outcome {
        Ok(note) => ResponseView::message(Status::Success, note),
        Err(error) => failure_spec(error),
    }
}

/// The view of a planned step: a statement to run, or a final answer.
pub open spec fn plan_view(plan: Result<Statement, Response>) -> Result<
    StatementView,
    ResponseView,
> {
    match plan {
        Ok(statement) => Ok(statement@),
        Err(response) => Err(response@),
    }
}

/// The view of an optional statement.
pub open spec fn opt_statement_view(statement: Option<Statement>) -> Option<StatementView> {
    match statement {
        Some(s) => Some(s@),
        None => None,
    }
}

/// Answers a liveness probe.
pub fn get_health() -> (response: Response)
    ensures
        response@ == health_spec(),
{
    Response::text(Status::Success, String::from_str("Up and Running really fast"))
}

/// The answer for a note that was looked for and not found.
pub fn not_found(id: u128) -> (response: Response)
    ensures
        response@ == not_found_spec(id),
{
    let id_text = hyphenated(id);
    let message = String::from_str("Note with ID: ").concat(id_text.as_str()).concat(" not found");
    Response::text(Status::NotFound, message)
}

/// The insert for a create request.
pub fn create_note_statement(body: CreateNoteSchema) -> (statement: Statement)
    ensures
        statement@ == create_statement_spec(body@),
{
    let category = match body.category {
        Some(category) => category,
        None => String::new(),
    };
    Statement::Insert {
        title: body.title,
        content: body.content,
        category,
        published: body.published,
    }
}

/// Answers a create request from the outcome of its insert: created with
/// the new row, conflict where the title is taken, and a server error with
/// the diagnostic text for every other failure.
pub fn create_note(outcome: Result<NoteModel, DbError>) -> (response: Response)
    ensures
        response@ == create_note_spec(row_outcome_view(outcome)),
{
    match outcome {
        Ok(note) => Response::data(Status::Created, note),
        Err(error) => {
            if reports_unique_violation(&error) {
                Response::text(
                    Status::Conflict,
                    String::from_str("Note with that title already exists"),
                )
            } else {
                Response::text(Status::InternalServerError, error.detail)
            }
        },
    }
}

/// The select for a get-one request.
pub fn get_note_statement(id: u128) -> (statement: Statement)
    ensures
        statement@ == (StatementView::SelectById { id }),
{
    Statement::SelectById { id }
}

/// Answers a get-one request from the outcome of its select: the row, or
/// not found for every failure.
pub fn get_note(id: u128, outcome: Result<NoteModel, DbError>) -> (response: Response)
    ensures
        response@ == get_note_spec(id, row_outcome_view(outcome)),
{
    match outcome {
        Ok(note) => Response::data(Status::Success, note),
        Err(_) => not_found(id),
    }
}

/// The select for a list request; absent options are the first page of
/// ten. `None` where page or limit is not positive or does not fit the
/// query.
pub fn get_all_notes_statement(options: Option<FilterOptions>) -> (statement: Option<Statement>)
    ensures
        opt_statement_view(statement) == list_statement_spec(
            match options {
                Some(o) => o,
                None => (FilterOptions { page: None, limit: None }),
            },
        ),
{
    let options = match options {
        Some(o) => o,
        None => FilterOptions::default(),
    };
    match options.window() {
        Some(window) => Some(Statement::SelectPage { limit: window.limit, offset: window.offset }),
        None => None,
    }
}

/// Answers a list request from the outcome of its select: the rows with
/// their count, or a server error.
pub fn get_all_notes(outcome: Result<Vec<NoteModel>, DbError>) -> (response: Response)
    ensures
        response@ == get_all_notes_spec(rows_outcome_view(outcome)),
{
    match outcome {
        Ok(notes) => Response::list(Status::Success, notes),
        Err(_) => Response::text(
            Status::InternalServerError,
            String::from_str("Something bad happened while fetching all note items"),
        ),
    }
}

/// The lookup that an update request starts with.
pub fn update_note_lookup(id: u128) -> (statement: Statement)
    ensures
        statement@ == (StatementView::SelectById { id }),
{
    Statement::SelectById { id }
}

/// The update for an update request on the note `current` at time `now`.
pub fn update_note_statement(
    id: u128,
    body: UpdateNoteSchema,
    current: NoteModel,
    now: i64,
) -> (statement: Statement)
    ensures
        statement@ == update_statement_spec(id, body@, current@, now as int),
{
    let title = match body.title {
        Some(title) => title,
        None => current.title,
    };
    let content = match body.content {
        Some(content) => content,
        None => current.content,
    };
    let category = match body.category {
        Some(category) => category,
        None => current.category,
    };
    let published = match body.published {
        Some(published) => published,
        None => flag_to_text(current.published),
    };
    Statement::Update { title, content, category, published, updated_at: now, id }
}

/// What follows the lookup of an update request at time `now`: the update
/// to run, or not found for every failure of the lookup.
pub fn update_note_plan_at(
    id: u128,
    body: UpdateNoteSchema,
    lookup: Result<NoteModel, DbError>,
    now: i64,
) -> (plan: Result<Statement, Response>)
    ensures
        plan_view(plan) == update_plan_spec(id, body@, row_outcome_view(lookup), now as int),
{
    match lookup {
        Ok(current) => Ok(update_note_statement(id, body, current, now)),
        Err(_) => Err(not_found(id)),
    }
}

/// What follows the lookup of an update request, at the time the clock
/// shows now.
pub fn update_note_plan(id: u128, body: UpdateNoteSchema, lookup: Result<NoteModel, DbError>) -> (plan:
    Result<Statement, Response>)
    ensures
        exists|now: i64|
            plan_view(plan) == update_plan_spec(id, body@, row_outcome_view(lookup), now as int),
        lookup is Err ==> plan_view(plan) == Err::<StatementView, ResponseView>(not_found_spec(id)),
{
    let now: i64 = now_micros();
    update_note_plan_at(id, body, lookup, now)
}

/// Answers an update request from the outcome of its update: the new row,
/// or a server error with the diagnostic text.
pub fn update_note(outcome: Result<NoteModel, DbError>) -> (response: Response)
    ensures
        response@ == written_note_spec(row_outcome_view(outcome)),
{
    match outcome {
        Ok(note) => Response::message(Status::Success, note),
        Err(error) => Response::text(Status::InternalServerError, error.detail),
    }
}

/// The delete for a delete request.
pub fn delete_note_statement(id: u128) -> (statement: Statement)
    ensures
        statement@ == (StatementView::DeleteById { id }),
{
    Statement::DeleteById { id }
}

/// Answers a delete request from the outcome of its delete: the removed
/// row, or a server error with the diagnostic text.
pub fn delete_note(outcome: Result<NoteModel, DbError>) -> (response: Response)
    ensures
        response@ == written_note_spec(row_outcome_view(outcome)),
{
    match outcome {
        Ok(note) => Response::message(Status::Success, note),
        Err(error) => Response::text(Status::InternalServerError, error.detail),
    }
}

} // verus!
