use notes_api::handler::{
    create_note, create_note_statement, delete_note, delete_note_statement, flag_to_text,
    get_all_notes, get_all_notes_statement, get_health, get_note, get_note_statement, not_found,
    reports_unique_violation, update_note, update_note_lookup, update_note_plan,
    update_note_plan_at, update_note_statement,
};
use notes_api::model::{DbError, NoteModel};
use notes_api::response::{Envelope, Response, Status};
use notes_api::schema::{CreateNoteSchema, FilterOptions, UpdateNoteSchema};
use notes_api::statement::Statement;

fn sample_note() -> NoteModel {
    NoteModel {
        id: 0x67e5504410b1426f9247bb680e5fe0c8,
        title: "Groceries".to_string(),
        content: "Milk, eggs".to_string(),
        category: "home".to_string(),
        published: true,
        created_at: 1_700_000_000_000_000,
        updated_at: 1_700_000_000_000_000,
    }
}

fn failure(message: &str, detail: &str) -> DbError {
    DbError { message: message.to_string(), detail: detail.to_string() }
}

fn text(status: Status, label: &str, message: &str) -> Response {
    Response {
        status,
        body: Envelope::Text { status: label.to_string(), message: message.to_string() },
    }
}

#[test]
fn health_answers_with_static_payload() {
    assert_eq!(get_health(), text(Status::Success, "200", "Up and Running really fast"));
}

#[test]
fn create_statement_binds_request_fields() {
    let body = CreateNoteSchema {
        title: "Groceries".to_string(),
        content: "Milk, eggs".to_string(),
        category: Some("home".to_string()),
        published: Some(true),
    };
    assert_eq!(
        create_note_statement(body),
        Statement::Insert {
            title: "Groceries".to_string(),
            content: "Milk, eggs".to_string(),
            category: "home".to_string(),
            published: Some(true),
        }
    );
}

#[test]
fn create_statement_defaults_absent_category_to_empty_text() {
    let body = CreateNoteSchema {
        title: "t".to_string(),
        content: "c".to_string(),
        category: None,
        published: None,
    };
    assert_eq!(
        create_note_statement(body),
        Statement::Insert {
            title: "t".to_string(),
            content: "c".to_string(),
            category: String::new(),
            published: None,
        }
    );
}

#[test]
fn create_answers_201_with_the_new_note() {
    let response = create_note(Ok(sample_note()));
    assert_eq!(response.status.code(), 201);
    assert_eq!(
        response,
        Response {
            status: Status::Created,
            body: Envelope::Data { status: "201".to_string(), note: sample_note() },
        }
    );
}

#[test]
fn create_answers_409_when_the_title_is_taken() {
    let error = failure(
        "error returned from database: duplicate key value violates unique constraint \"notes_title_key\"",
        "Database(PgDatabaseError { code: \"23505\" })",
    );
    let response = create_note(Err(error));
    assert_eq!(response.status.code(), 409);
    assert_eq!(response, text(Status::Conflict, "409", "Note with that title already exists"));
}

#[test]
fn create_answers_500_with_the_diagnostic_text_for_other_failures() {
    let response = create_note(Err(failure("pool timed out", "PoolTimedOut")));
    assert_eq!(response.status.code(), 500);
    assert_eq!(response, text(Status::InternalServerError, "500", "PoolTimedOut"));
}

#[test]
fn create_treats_a_near_miss_of_the_phrase_as_another_failure() {
    let response =
        create_note(Err(failure("duplicate key value violates unique constrain", "Near")));
    assert_eq!(response, text(Status::InternalServerError, "500", "Near"));
}

#[test]
fn unique_violation_is_found_by_its_phrase() {
    assert!(reports_unique_violation(&failure(
        "duplicate key value violates unique constraint",
        ""
    )));
    assert!(reports_unique_violation(&failure(
        "x duplicate key value violates unique constraint y",
        ""
    )));
    assert!(!reports_unique_violation(&failure("", "")));
    assert!(!reports_unique_violation(&failure(
        "",
        "duplicate key value violates unique constraint"
    )));
    assert!(!reports_unique_violation(&failure(
        "Duplicate key value violates unique constraint",
        ""
    )));
}

#[test]
fn get_statement_selects_by_id() {
    assert_eq!(get_note_statement(42), Statement::SelectById { id: 42 });
    assert_eq!(update_note_lookup(42), Statement::SelectById { id: 42 });
}

#[test]
fn get_answers_200_with_exactly_the_note() {
    let note = sample_note();
    let response = get_note(note.id, Ok(sample_note()));
    assert_eq!(response.status.code(), 200);
    assert_eq!(
        response,
        Response {
            status: Status::Success,
            body: Envelope::Data { status: "200".to_string(), note },
        }
    );
}

#[test]
fn get_answers_404_naming_the_id() {
    let id: u128 = 0x67e5504410b1426f9247bb680e5fe0c8;
    let response = get_note(id, Err(failure("no rows returned", "RowNotFound")));
    assert_eq!(response.status.code(), 404);
    assert_eq!(
        response,
        text(
            Status::NotFound,
            "404",
            "Note with ID: 67e55044-10b1-426f-9247-bb680e5fe0c8 not found"
        )
    );
}

#[test]
fn not_found_renders_identifiers_in_hyphenated_lower_case() {
    assert_eq!(
        not_found(0),
        text(
            Status::NotFound,
            "404",
            "Note with ID: 00000000-0000-0000-0000-000000000000 not found"
        )
    );
    assert_eq!(
        not_found(u128::MAX),
        text(
            Status::NotFound,
            "404",
            "Note with ID: ffffffff-ffff-ffff-ffff-ffffffffffff not found"
        )
    );
    assert_eq!(
        not_found(0xa1a2a3a4b1b2c1c2d1d2d3d4d5d6d7d8),
        text(
            Status::NotFound,
            "404",
            "Note with ID: a1a2a3a4-b1b2-c1c2-d1d2-d3d4d5d6d7d8 not found"
        )
    );
    assert_eq!(
        not_found(0x0123456789abcdef0123456789abcdef),
        text(
            Status::NotFound,
            "404",
            "Note with ID: 01234567-89ab-cdef-0123-456789abcdef not found"
        )
    );
}

#[test]
fn list_statement_for_second_page_of_five() {
    let options = FilterOptions { page: Some(2), limit: Some(5) };
    assert_eq!(
        get_all_notes_statement(Some(options)),
        Some(Statement::SelectPage { limit: 5, offset: 5 })
    );
}

#[test]
fn list_statement_defaults_to_first_page_of_ten() {
    assert_eq!(
        get_all_notes_statement(None),
        Some(Statement::SelectPage { limit: 10, offset: 0 })
    );
    assert_eq!(
        get_all_notes_statement(Some(FilterOptions::default())),
        Some(Statement::SelectPage { limit: 10, offset: 0 })
    );
    assert_eq!(
        get_all_notes_statement(Some(FilterOptions { page: Some(4), limit: None })),
        Some(Statement::SelectPage { limit: 10, offset: 30 })
    );
    assert_eq!(
        get_all_notes_statement(Some(FilterOptions { page: None, limit: Some(3) })),
        Some(Statement::SelectPage { limit: 3, offset: 0 })
    );
}

#[test]
fn list_statement_refuses_what_is_not_positive() {
    assert_eq!(get_all_notes_statement(Some(FilterOptions { page: Some(0), limit: None })), None);
    assert_eq!(get_all_notes_statement(Some(FilterOptions { page: None, limit: Some(0) })), None);
}

#[test]
fn list_statement_refuses_what_does_not_fit_the_query() {
    let max = i32::MAX as usize;
    assert_eq!(
        get_all_notes_statement(Some(FilterOptions { page: Some(1), limit: Some(max) })),
        Some(Statement::SelectPage { limit: i32::MAX, offset: 0 })
    );
    assert_eq!(
        get_all_notes_statement(Some(FilterOptions { page: Some(2), limit: Some(max) })),
        Some(Statement::SelectPage { limit: i32::MAX, offset: i32::MAX })
    );
    assert_eq!(
        get_all_notes_statement(Some(FilterOptions { page: Some(3), limit: Some(max) })),
        None
    );
    assert_eq!(
        get_all_notes_statement(Some(FilterOptions { page: Some(1), limit: Some(max + 1) })),
        None
    );
    assert_eq!(
        get_all_notes_statement(Some(FilterOptions { page: Some(max + 1), limit: Some(1) })),
        Some(Statement::SelectPage { limit: 1, offset: i32::MAX })
    );
    assert_eq!(
        get_all_notes_statement(Some(FilterOptions { page: Some(max + 2), limit: Some(1) })),
        None
    );
    assert_eq!(
        get_all_notes_statement(Some(FilterOptions {
            page: Some(usize::MAX),
            limit: Some(usize::MAX)
        })),
        None
    );
}

#[test]
fn list_answers_200_with_rows_and_their_count() {
    let mut second = sample_note();
    second.id = 9;
    second.title = "Other".to_string();
    let response = get_all_notes(Ok(vec![second.clone(), sample_note()]));
    assert_eq!(
        response,
        Response {
            status: Status::Success,
            body: Envelope::List {
                status: "200".to_string(),
                results: 2,
                notes: vec![second, sample_note()],
            },
        }
    );
    assert_eq!(
        get_all_notes(Ok(Vec::new())),
        Response {
            status: Status::Success,
            body: Envelope::List { status: "200".to_string(), results: 0, notes: Vec::new() },
        }
    );
}

#[test]
fn list_answers_500_on_failure() {
    assert_eq!(
        get_all_notes(Err(failure("boom", "Io"))),
        text(
            Status::InternalServerError,
            "500",
            "Something bad happened while fetching all note items"
        )
    );
}

#[test]
fn update_statement_keeps_absent_fields() {
    let body = UpdateNoteSchema {
        title: None,
        content: Some("Bread".to_string()),
        category: None,
        published: None,
    };
    assert_eq!(
        update_note_statement(7, body, sample_note(), 1_700_000_000_000_001),
        Statement::Update {
            title: "Groceries".to_string(),
            content: "Bread".to_string(),
            category: "home".to_string(),
            published: "true".to_string(),
            updated_at: 1_700_000_000_000_001,
            id: 7,
        }
    );
}

#[test]
fn update_statement_takes_given_fields() {
    let body = UpdateNoteSchema {
        title: Some("T".to_string()),
        content: Some("C".to_string()),
        category: Some("K".to_string()),
        published: Some("false".to_string()),
    };
    let mut current = sample_note();
    current.published = false;
    assert_eq!(
        update_note_statement(current.id, body, current.clone(), -5),
        Statement::Update {
            title: "T".to_string(),
            content: "C".to_string(),
            category: "K".to_string(),
            published: "false".to_string(),
            updated_at: -5,
            id: current.id,
        }
    );
    let none = UpdateNoteSchema { title: None, content: None, category: None, published: None };
    assert_eq!(
        update_note_statement(current.id, none, current.clone(), 0),
        Statement::Update {
            title: current.title.clone(),
            content: current.content.clone(),
            category: current.category.clone(),
            published: "false".to_string(),
            updated_at: 0,
            id: current.id,
        }
    );
}

#[test]
fn flag_text_is_true_or_false() {
    assert_eq!(flag_to_text(true), "true");
    assert_eq!(flag_to_text(false), "false");
}

#[test]
fn update_plan_answers_404_when_the_lookup_fails() {
    let body = UpdateNoteSchema { title: None, content: None, category: None, published: None };
    let expected = text(
        Status::NotFound,
        "404",
        "Note with ID: 00000000-0000-0000-0000-000000000007 not found",
    );
    assert_eq!(
        update_note_plan_at(7, body.clone(), Err(failure("no rows", "RowNotFound")), 1),
        Err(expected.clone())
    );
    assert_eq!(update_note_plan(7, body, Err(failure("no rows", "RowNotFound"))), Err(expected));
}

#[test]
fn update_plan_binds_the_given_time() {
    let body = UpdateNoteSchema {
        title: None,
        content: Some("x".to_string()),
        category: None,
        published: None,
    };
    assert_eq!(
        update_note_plan_at(sample_note().id, body, Ok(sample_note()), 1_800_000_000_000_000),
        Ok(Statement::Update {
            title: "Groceries".to_string(),
            content: "x".to_string(),
            category: "home".to_string(),
            published: "true".to_string(),
            updated_at: 1_800_000_000_000_000,
            id: sample_note().id,
        })
    );
}

fn system_micros() -> i64 {
    std::time::SystemTime::now()
        .duration_since(std::time::UNIX_EPOCH)
        .unwrap()
        .as_micros() as i64
}

#[test]
fn update_plan_reads_the_clock() {
    let body = UpdateNoteSchema {
        title: None,
        content: Some("x".to_string()),
        category: None,
        published: None,
    };
    let before = system_micros();
    let plan = update_note_plan(sample_note().id, body, Ok(sample_note()));
    let after = system_micros();
    match plan {
        Ok(Statement::Update { title, content, category, published, updated_at, id }) => {
            assert_eq!(title, "Groceries");
            assert_eq!(content, "x");
            assert_eq!(category, "home");
            assert_eq!(published, "true");
            assert_eq!(id, sample_note().id);
            assert!(before <= updated_at && updated_at <= after);
        }
        other => panic!("unexpected plan: {:?}", other),
    }
}

#[test]
fn update_answers_200_with_the_new_row() {
    assert_eq!(
        update_note(Ok(sample_note())),
        Response {
            status: Status::Success,
            body: Envelope::Message { status: "200".to_string(), note: sample_note() },
        }
    );
}

#[test]
fn update_answers_500_with_the_diagnostic_text() {
    assert_eq!(
        update_note(Err(failure(
            "duplicate key value violates unique constraint",
            "Database(..)"
        ))),
        text(Status::InternalServerError, "500", "Database(..)")
    );
}

#[test]
fn delete_statement_deletes_by_id() {
    assert_eq!(delete_note_statement(5), Statement::DeleteById { id: 5 });
}

#[test]
fn delete_answers_200_with_the_removed_row() {
    let response = delete_note(Ok(sample_note()));
    assert_eq!(response.status.code(), 200);
    assert_eq!(
        response,
        Response {
            status: Status::Success,
            body: Envelope::Message { status: "200".to_string(), note: sample_note() },
        }
    );
}

#[test]
fn delete_answers_500_when_the_row_is_missing() {
    assert_eq!(
        delete_note(Err(failure("no rows returned", "RowNotFound"))),
        text(Status::InternalServerError, "500", "RowNotFound")
    );
}
