use notes_api::handler::{
    create_note, create_note_statement, delete_note, delete_note_statement, get_all_notes,
    get_all_notes_statement, get_note, get_note_statement, update_note, update_note_lookup,
    update_note_plan_at,
};
use notes_api::model::{DbError, NoteModel};
use notes_api::response::{Envelope, Response, Status};
use notes_api::schema::{CreateNoteSchema, FilterOptions, UpdateNoteSchema};
use notes_api::statement::Statement;

/// A stand-in for the database: rows in identifier order, unique titles.
struct Notes {
    rows: Vec<NoteModel>,
    next_id: u128,
    clock: i64,
}

fn missing() -> DbError {
    DbError {
        message: "no rows returned by a query that expected to return at least one row".to_string(),
        detail: "RowNotFound".to_string(),
    }
}

fn taken() -> DbError {
    DbError {
        message: "error returned from database: duplicate key value violates unique constraint \"notes_title_key\""
            .to_string(),
        detail: "Database(PgDatabaseError { severity: Error, code: \"23505\" })".to_string(),
    }
}

impl Notes {
    fn new() -> Notes {
        Notes { rows: Vec::new(), next_id: 100, clock: 1_000 }
    }

    fn fetch_one(&mut self, statement: &Statement) -> Result<NoteModel, DbError> {
        match statement {
            Statement::Insert { title, content, category, published } => {
                if self.rows.iter().any(|r| &r.title == title) {
                    return Err(taken());
                }
                self.clock += 10;
                let row = NoteModel {
                    id: self.next_id,
                    title: title.clone(),
                    content: content.clone(),
                    category: category.clone(),
                    published: published.unwrap_or(false),
                    created_at: self.clock,
                    updated_at: self.clock,
                };
                self.next_id += 1;
                self.rows.push(row.clone());
                self.rows.sort_by_key(|r| r.id);
                Ok(row)
            }
            Statement::SelectById { id } => {
                self.rows.iter().find(|r| r.id == *id).cloned().ok_or_else(missing)
            }
            Statement::Update { title, content, category, published, updated_at, id } => {
                if self.rows.iter().any(|r| r.id != *id && &r.title == title) {
                    return Err(taken());
                }
                let flag = match published.as_str() {
                    "true" => true,
                    "false" => false,
                    _ => return Err(missing()),
                };
                let row = self.rows.iter_mut().find(|r| r.id == *id).ok_or_else(missing)?;
                row.title = title.clone();
                row.content = content.clone();
                row.category = category.clone();
                row.published = flag;
                row.updated_at = *updated_at;
                Ok(row.clone())
            }
            Statement::DeleteById { id } => {
                let at = self.rows.iter().position(|r| r.id == *id).ok_or_else(missing)?;
                Ok(self.rows.remove(at))
            }
            Statement::SelectPage { .. } => panic!("a list statement returns many rows"),
        }
    }

    fn fetch_all(&mut self, statement: &Statement) -> Result<Vec<NoteModel>, DbError> {
        match statement {
            Statement::SelectPage { limit, offset } => Ok(self
                .rows
                .iter()
                .skip(*offset as usize)
                .take(*limit as usize)
                .cloned()
                .collect()),
            _ => panic!("not a list statement"),
        }
    }

    fn create(&mut self, title: &str, content: &str) -> Response {
        let body = CreateNoteSchema {
            title: title.to_string(),
            content: content.to_string(),
            category: None,
            published: None,
        };
        let outcome = self.fetch_one(&create_note_statement(body));
        create_note(outcome)
    }

    fn get(&mut self, id: u128) -> Response {
        let outcome = self.fetch_one(&get_note_statement(id));
        get_note(id, outcome)
    }

    fn update(&mut self, id: u128, body: UpdateNoteSchema, now: i64) -> Response {
        let lookup = self.fetch_one(&update_note_lookup(id));
        match update_note_plan_at(id, body, lookup, now) {
            Ok(statement) => {
                let outcome = self.fetch_one(&statement);
                update_note(outcome)
            }
            Err(response) => response,
        }
    }

    fn delete(&mut self, id: u128) -> Response {
        let outcome = self.fetch_one(&delete_note_statement(id));
        delete_note(outcome)
    }

    fn list(&mut self, page: Option<usize>, limit: Option<usize>) -> Response {
        let statement = get_all_notes_statement(Some(FilterOptions { page, limit })).unwrap();
        let outcome = self.fetch_all(&statement);
        get_all_notes(outcome)
    }
}

fn note_of(response: &Response) -> NoteModel {
    match &response.body {
        Envelope::Data { note, .. } => note.clone(),
        Envelope::Message { note, .. } => note.clone(),
        other => panic!("no note in {:?}", other),
    }
}

fn content_only(content: &str) -> UpdateNoteSchema {
    UpdateNoteSchema {
        title: None,
        content: Some(content.to_string()),
        category: None,
        published: None,
    }
}

#[test]
fn create_with_unique_title_returns_201_and_the_note() {
    let mut notes = Notes::new();
    let body = CreateNoteSchema {
        title: "First".to_string(),
        content: "Body".to_string(),
        category: Some("work".to_string()),
        published: Some(true),
    };
    let outcome = notes.fetch_one(&create_note_statement(body));
    let response = create_note(outcome);
    assert_eq!(response.status, Status::Created);
    assert_eq!(response.status.code(), 201);
    match response.body {
        Envelope::Data { status, note } => {
            assert_eq!(status, "201");
            assert_eq!(note.id, 100);
            assert_eq!(note.title, "First");
            assert_eq!(note.content, "Body");
            assert_eq!(note.category, "work");
            assert!(note.published);
            assert_eq!(note.created_at, note.updated_at);
        }
        other => panic!("unexpected envelope: {:?}", other),
    }
    assert_eq!(notes.rows.len(), 1);
}

#[test]
fn create_without_category_and_flag_takes_the_defaults() {
    let mut notes = Notes::new();
    let note = note_of(&notes.create("First", "Body"));
    assert_eq!(note.category, "");
    assert!(!note.published);
}

#[test]
fn create_with_taken_title_returns_409_and_adds_no_row() {
    let mut notes = Notes::new();
    assert_eq!(notes.create("First", "one").status.code(), 201);
    let before = notes.rows.clone();
    let response = notes.create("First", "two");
    assert_eq!(response.status.code(), 409);
    assert_eq!(
        response.body,
        Envelope::Text {
            status: "409".to_string(),
            message: "Note with that title already exists".to_string(),
        }
    );
    assert_eq!(notes.rows, before);
}

#[test]
fn get_of_a_missing_id_returns_404() {
    let mut notes = Notes::new();
    notes.create("First", "one");
    let response = notes.get(7);
    assert_eq!(response.status.code(), 404);
    assert_eq!(
        response.body,
        Envelope::Text {
            status: "404".to_string(),
            message: "Note with ID: 00000000-0000-0000-0000-000000000007 not found".to_string(),
        }
    );
}

#[test]
fn get_of_an_existing_id_returns_200_with_that_note() {
    let mut notes = Notes::new();
    notes.create("First", "one");
    let second = note_of(&notes.create("Second", "two"));
    notes.create("Third", "three");
    let response = notes.get(second.id);
    assert_eq!(response.status.code(), 200);
    assert_eq!(response.body, Envelope::Data { status: "200".to_string(), note: second });
}

#[test]
fn list_page_two_of_five_skips_the_first_five() {
    let mut notes = Notes::new();
    for i in 0..12 {
        notes.create(&format!("Note {}", i), "text");
    }
    let response = notes.list(Some(2), Some(5));
    assert_eq!(response.status.code(), 200);
    match response.body {
        Envelope::List { status, results, notes: listed } => {
            assert_eq!(status, "200");
            assert_eq!(results, 5);
            let ids: Vec<u128> = listed.iter().map(|n| n.id).collect();
            assert_eq!(ids, vec![105, 106, 107, 108, 109]);
        }
        other => panic!("unexpected envelope: {:?}", other),
    }
}

#[test]
fn list_returns_at_most_what_is_left() {
    let mut notes = Notes::new();
    for i in 0..7 {
        notes.create(&format!("Note {}", i), "text");
    }
    match notes.list(Some(2), Some(5)).body {
        Envelope::List { results, notes: listed, .. } => {
            assert_eq!(results, 2);
            assert_eq!(listed.len(), 2);
            assert_eq!(listed[0].id, 105);
            assert_eq!(listed[1].id, 106);
        }
        other => panic!("unexpected envelope: {:?}", other),
    }
    match notes.list(Some(3), Some(5)).body {
        Envelope::List { results, notes: listed, .. } => {
            assert_eq!(results, 0);
            assert!(listed.is_empty());
        }
        other => panic!("unexpected envelope: {:?}", other),
    }
    match notes.list(None, None).body {
        Envelope::List { results, .. } => assert_eq!(results, 7),
        other => panic!("unexpected envelope: {:?}", other),
    }
}

#[test]
fn update_of_content_only_keeps_the_other_fields() {
    let mut notes = Notes::new();
    let body = CreateNoteSchema {
        title: "First".to_string(),
        content: "old".to_string(),
        category: Some("work".to_string()),
        published: Some(true),
    };
    let outcome = notes.fetch_one(&create_note_statement(body));
    let created = note_of(&create_note(outcome));
    let response = notes.update(created.id, content_only("new"), created.created_at + 1);
    assert_eq!(response.status.code(), 200);
    let updated = note_of(&response);
    assert_eq!(updated.id, created.id);
    assert_eq!(updated.title, "First");
    assert_eq!(updated.category, "work");
    assert!(updated.published);
    assert_eq!(updated.content, "new");
    assert_eq!(updated.created_at, created.created_at);
    assert!(updated.updated_at > updated.created_at);
    assert_eq!(updated.updated_at, created.created_at + 1);
}

#[test]
fn update_of_a_missing_note_returns_404() {
    let mut notes = Notes::new();
    let response = notes.update(3, content_only("new"), 5);
    assert_eq!(response.status.code(), 404);
    assert!(notes.rows.is_empty());
}

#[test]
fn update_to_a_taken_title_returns_500() {
    let mut notes = Notes::new();
    notes.create("First", "one");
    let second = note_of(&notes.create("Second", "two"));
    let body = UpdateNoteSchema {
        title: Some("First".to_string()),
        content: None,
        category: None,
        published: None,
    };
    let response = notes.update(second.id, body, 2_000);
    assert_eq!(response.status.code(), 500);
    assert_eq!(note_of(&notes.get(second.id)), second);
}

#[test]
fn update_after_a_delete_in_between_returns_500() {
    let mut notes = Notes::new();
    let note = note_of(&notes.create("First", "one"));
    let lookup = notes.fetch_one(&update_note_lookup(note.id));
    assert_eq!(notes.delete(note.id).status.code(), 200);
    let statement = update_note_plan_at(note.id, content_only("new"), lookup, 2_000).unwrap();
    let outcome = notes.fetch_one(&statement);
    let response = update_note(outcome);
    assert_eq!(response.status.code(), 500);
    assert!(notes.rows.is_empty());
}

#[test]
fn delete_then_get_returns_404() {
    let mut notes = Notes::new();
    let kept = note_of(&notes.create("Kept", "one"));
    let gone = note_of(&notes.create("Gone", "two"));
    let response = notes.delete(gone.id);
    assert_eq!(response.status.code(), 200);
    assert_eq!(response.body, Envelope::Message { status: "200".to_string(), note: gone.clone() });
    assert_eq!(notes.get(gone.id).status.code(), 404);
    assert_eq!(note_of(&notes.get(kept.id)), kept);
}

#[test]
fn delete_of_a_missing_note_returns_500() {
    let mut notes = Notes::new();
    let response = notes.delete(9);
    assert_eq!(response.status.code(), 500);
    assert_eq!(
        response.body,
        Envelope::Text { status: "500".to_string(), message: "RowNotFound".to_string() }
    );
}

#[test]
fn round_trip_reflects_each_mutation_once() {
    let mut notes = Notes::new();
    notes.create("Other", "stays");
    let start = notes.rows.clone();

    let created = notes.create("Trip", "v1");
    assert_eq!(created.status.code(), 201);
    let note = note_of(&created);
    assert_eq!(notes.rows.len(), start.len() + 1);

    let first = notes.get(note.id);
    assert_eq!(first.status.code(), 200);
    assert_eq!(note_of(&first), note);

    let updated = notes.update(note.id, content_only("v2"), note.created_at + 5);
    assert_eq!(updated.status.code(), 200);
    let changed = note_of(&updated);
    assert_eq!(
        changed,
        NoteModel { content: "v2".to_string(), updated_at: note.created_at + 5, ..note.clone() }
    );
    assert_eq!(notes.rows.len(), start.len() + 1);
    assert_eq!(notes.rows.iter().filter(|r| r.id == note.id).count(), 1);

    let second = notes.get(note.id);
    assert_eq!(second.status.code(), 200);
    assert_eq!(note_of(&second), changed);

    let deleted = notes.delete(note.id);
    assert_eq!(deleted.status.code(), 200);
    assert_eq!(note_of(&deleted), changed);

    let third = notes.get(note.id);
    assert_eq!(third.status.code(), 404);
    assert_eq!(notes.rows, start);
}
