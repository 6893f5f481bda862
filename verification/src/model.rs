//! The note entity and the failure a database call reports.

use vstd::prelude::*;

verus! {

/// One row of the notes table.
#[derive(Debug, Clone, PartialEq, Eq)]
pub struct NoteModel {
    /// Identifier assigned by the database on insert, as a 128-bit value.
    pub id: u128,
    pub title: String,
    pub content: String,
    pub category: String,
    pub published: bool,
    /// Microseconds since the Unix epoch.
    pub created_at: i64,
    /// Microseconds since the Unix epoch.
    pub updated_at: i64,
}

/// Mathematical value of a [`NoteModel`].
pub struct NoteView {
    pub id: u128,
    pub title: Seq<char>,
    pub content: Seq<char>,
    pub category: Seq<char>,
    pub published: bool,
    pub created_at: int,
    pub updated_at: int,
}

impl View for NoteModel {
    type V = NoteView;

    open spec fn view(&self) -> NoteView {
        NoteView {
            id: self.id,
            title: self.title@,
            content: self.content@,
            category: self.category@,
            published: self.published,
            created_at: self.created_at as int,
            updated_at: self.updated_at as int,
        }
    }
}

/// The views of a list of notes, in the same order.
pub open spec fn note_views(notes: Seq<NoteModel>) -> Seq<NoteView> {
    notes.map_values(|n: NoteModel| n@)
}

/// What a failed database call reports: the driver's message and its
/// diagnostic rendering.
#[derive(Debug, Clone, PartialEq, Eq)]
pub struct DbError {
    /// The error as the driver words it for users.
    pub message: String,
    /// The error as the driver renders it for diagnosis.
    pub detail: String,
}

/// Mathematical value of a [`DbError`].
pub struct DbErrorView {
    pub message: Seq<char>,
    pub detail: Seq<char>,
}

impl View for DbError {
    type V = DbErrorView;

    open spec fn view(&self) -> DbErrorView {
        DbErrorView { message: self.message@, detail: self.detail@ }
    }
}

/// The view of the outcome of a statement that returns one row.
pub open spec fn row_outcome_view(outcome: Result<NoteModel, DbError>) -> Result<
    NoteView,
    DbErrorView,
> {
    match outcome {
        Ok(note) => Ok(note@),
        Err(e) => Err(e@),
    }
}

/// The view of the outcome of a statement that returns a list of rows.
pub open spec fn rows_outcome_view(outcome: Result<Vec<NoteModel>, DbError>) -> Result<
    Seq<NoteView>,
    DbErrorView,
> {
    match outcome {
        Ok(notes) => Ok(note_views(notes@)),
        Err(e) => Err(e@),
    }
}

} // verus!
