//! The statements the service sends to the database, with their bound
//! parameters.

use vstd::prelude::*;

verus! {

/// One parameterized statement against the notes table. The fields are the
/// bound parameters, in the order of their placeholders.
#[derive(Debug, Clone, PartialEq, Eq)]
pub enum Statement {
    /// Inserts a note and returns the new row. Without a `published` value
    /// the column takes the default of the database.
    Insert { title: String, content: String, category: String, published: Option<bool> },
    /// Selects the note with the given identifier.
    SelectById { id: u128 },
    /// Selects at most `limit` notes in identifier order, after skipping
    /// `offset` of them.
    SelectPage { limit: i32, offset: i32 },
    /// Replaces the editable fields of the note with the given identifier and
    /// returns the new row.
    Update {
        title: String,
        content: String,
        category: String,
        published: String,
        updated_at: i64,
        id: u128,
    },
    /// Deletes the note with the given identifier and returns the removed row.
    DeleteById { id: u128 },
}

/// Mathematical value of a [`Statement`].
pub enum StatementView {
    Insert { title: Seq<char>, content: Seq<char>, category: Seq<char>, published: Option<bool> },
    SelectById { id: u128 },
    SelectPage { limit: int, offset: int },
    Update {
        title: Seq<char>,
        content: Seq<char>,
        category: Seq<char>,
        published: Seq<char>,
        updated_at: int,
        id: u128,
    },
    DeleteById { id: u128 },
}

impl View for Statement {
    type V = StatementView;

    open spec fn view(&self) -> StatementView {
        match *self {
            Statement::Insert { title, content, category, published } => StatementView::Insert {
                title: title@,
                content: content@,
                category: category@,
                published,
            },
            Statement::SelectById { id } => StatementView::SelectById { id },
            Statement::SelectPage { limit, offset } => StatementView::SelectPage {
                limit: limit as int,
                offset: offset as int,
            },
            Statement::Update {
                title,
                content,
                category,
                published,
                updated_at,
                id,
            } => StatementView::Update {
                title: title@,
                content: content@,
                category: category@,
                published: published@,
                updated_at: updated_at as int,
                id,
            },
            Statement::DeleteById { id } => StatementView::DeleteById { id },
        }
    }
}

/// The SQL text of a statement.
pub open spec fn sql_text(statement: StatementView) -> Seq<char> {
    match statement {
        StatementView::Insert { published: None, .. } =>
            "INSERT INTO notes (title, content, category) VALUES ($1, $2, $3) RETURNING *"@,
        StatementView::Insert { published: Some(_), .. } =>
            "INSERT INTO notes (title, content, category, published) VALUES ($1, $2, $3, $4) RETURNING *"@,
        StatementView::SelectById { .. } => "SELECT * FROM notes WHERE id = $1"@,
        StatementView::SelectPage { .. } => "SELECT * FROM notes ORDER by id LIMIT $1 OFFSET $2"@,
        StatementView::Update { .. } =>
            "UPDATE notes SET title = $1, content = $2, category = $3, published = $4, updated_at = $5 WHERE id = $6 RETURNING *"@,
        StatementView::DeleteById { .. } => "DELETE FROM notes WHERE id = $1 RETURNING *"@,
    }
}

impl Statement {
    /// The SQL text to prepare for this statement.
    pub fn sql(&self) -> (text: &'static str)
        ensures
            text@ == sql_text(self@),
    {
        match self {
            Statement::Insert { published: None, .. } =>
                "INSERT INTO notes (title, content, category) VALUES ($1, $2, $3) RETURNING *",
            Statement::Insert { published: Some(_), .. } =>
                "INSERT INTO notes (title, content, category, published) VALUES ($1, $2, $3, $4) RETURNING *",
            Statement::SelectById { .. } => "SELECT * FROM notes WHERE id = $1",
            Statement::SelectPage { .. } => "SELECT * FROM notes ORDER by id LIMIT $1 OFFSET $2",
            Statement::Update { .. } =>
                "UPDATE notes SET title = $1, content = $2, category = $3, published = $4, updated_at = $5 WHERE id = $6 RETURNING *",
            Statement::DeleteById { .. } => "DELETE FROM notes WHERE id = $1 RETURNING *",
        }
    }
}

} // verus!
