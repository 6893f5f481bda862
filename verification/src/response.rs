//! What the service answers: a status and a JSON envelope.

use vstd::prelude::*;
use vstd::string::*;

use crate::model::{note_views, NoteModel, NoteView};

verus! {

/// The HTTP statuses the service answers with.
#[derive(Debug, Clone, Copy, PartialEq, Eq)]
pub enum Status {
    Success,
    Created,
    NotFound,
    Conflict,
    InternalServerError,
}

/// The decimal digit for a value below ten.
pub open spec fn decimal_digit(n: int) -> char {
    seq!['0', '1', '2', '3', '4', '5', '6', '7', '8', '9'][n]
}

/// The three decimal digits of a status code.
pub open spec fn decimal_text(code: int) -> Seq<char> {
    seq![decimal_digit(code / 100), decimal_digit((code / 10) % 10), decimal_digit(code % 10)]
}

impl Status {
    /// The numeric code of the status.
    pub open spec fn code_spec(self) -> int {
        match self {
            Status::Success => 200,
            Status::Created => 201,
            Status::NotFound => 404,
            Status::Conflict => 409,
            Status::InternalServerError => 500,
        }
    }

    /// The code as it stands in the `status` member of an envelope.
    pub open spec fn label_spec(self) -> Seq<char> {
        decimal_text(self.code_spec())
    }

    /// The numeric code of the status.
    pub fn code(self) -> (code: u16)
        ensures
            code == self.code_spec(),
    {
        match self {
            Status::Success => 200,
            Status::Created => 201,
            Status::NotFound => 404,
            Status::Conflict => 409,
            Status::InternalServerError => 500,
        }
    }

    /// The code as text, for the `status` member of an envelope.
    pub fn label(self) -> (label: String)
        ensures
            label@ == self.label_spec(),
    {
        proof {
            reveal_strlit("200");
            reveal_strlit("201");
            reveal_strlit("404");
            reveal_strlit("409");
            reveal_strlit("500");
        }
        let text = match self {
            Status::Success => "200",
            Status::Created => "201",
            Status::NotFound => "404",
            Status::Conflict => "409",
            Status::InternalServerError => "500",
        };
        assert(text@ =~= self.label_spec());
        String::from_str(text)
    }

    /// Whether the status reports success.
    pub fn is_success(self) -> (success: bool)
        ensures
            success == (200 <= self.code_spec() < 300),
    {
        match self {
            Status::Success => true,
            Status::Created => true,
            _ => false,
        }
    }
}

/// The JSON body of a response. Every shape carries the status code as
/// text in its `status` member.
#[derive(Debug, Clone, PartialEq, Eq)]
pub enum Envelope {
    /// `{"status": .., "message": <text>}`
    Text { status: String, message: String },
    /// `{"status": .., "data": {"note": <note>}}`
    Data { status: String, note: NoteModel },
    /// `{"status": .., "message": {"note": <note>}}`
    Message { status: String, note: NoteModel },
    /// `{"status": .., "results": <count>, "notes": [<note>, ..]}`
    List { status: String, results: usize, notes: Vec<NoteModel> },
}

/// Mathematical value of an [`Envelope`].
pub enum EnvelopeView {
    Text { status: Seq<char>, message: Seq<char> },
    Data { status: Seq<char>, note: NoteView },
    Message { status: Seq<char>, note: NoteView },
    List { status: Seq<char>, results: int, notes: Seq<NoteView> },
}

impl View for Envelope {
    type V = EnvelopeView;

    open spec fn view(&self) -> EnvelopeView {
        match *self {
            Envelope::Text { status, message } => EnvelopeView::Text {
                status: status@,
                message: message@,
            },
            Envelope::Data { status, note } => EnvelopeView::Data { status: status@, note: note@ },
            Envelope::Message { status, note } => EnvelopeView::Message {
                status: status@,
                note: note@,
            },
            Envelope::List { status, results, notes } => EnvelopeView::List {
                status: status@,
                results: results as int,
                notes: note_views(notes@),
            },
        }
    }
}

impl EnvelopeView {
    /// The `status` member of the envelope.
    pub open spec fn status(self) -> Seq<char> {
        match self {
            EnvelopeView::Text { status, .. } => status,
            EnvelopeView::Data { status, .. } => status,
            EnvelopeView::Message { status, .. } => status,
            EnvelopeView::List { status, .. } => status,
        }
    }
}

/// A complete answer to one request.
#[derive(Debug, Clone, PartialEq, Eq)]
pub struct Response {
    pub status: Status,
    pub body: Envelope,
}

/// Mathematical value of a [`Response`].
pub struct ResponseView {
    pub status: Status,
    pub body: EnvelopeView,
}

impl View for Response {
    type V = ResponseView;

    open spec fn view(&self) -> ResponseView {
        ResponseView { status: self.status, body: self.body@ }
    }
}

impl ResponseView {
    /// The answer `{"status": .., "message": <text>}` under `status`.
    pub open spec fn text(status: Status, message: Seq<char>) -> ResponseView {
        ResponseView {
            status,
            body: EnvelopeView::Text { status: status.label_spec(), message },
        }
    }

    /// The answer `{"status": .., "data": {"note": <note>}}` under `status`.
    pub open spec fn data(status: Status, note: NoteView) -> ResponseView {
        ResponseView { status, body: EnvelopeView::Data { status: status.label_spec(), note } }
    }

    /// The answer `{"status": .., "message": {"note": <note>}}` under
    /// `status`.
    pub open spec fn message(status: Status, note: NoteView) -> ResponseView {
        ResponseView { status, body: EnvelopeView::Message { status: status.label_spec(), note } }
    }

    /// The answer that lists `notes` under `status`.
    pub open spec fn list(status: Status, notes: Seq<NoteView>) -> ResponseView {
        ResponseView {
            status,
            body: EnvelopeView::List {
                status: status.label_spec(),
                results: notes.len() as int,
                notes,
            },
        }
    }

    /// The envelope names the status the response is sent under.
    pub open spec fn consistent(self) -> bool {
        self.body.status() == self.status.label_spec()
    }
}

impl Response {
    /// The answer `{"status": .., "message": <text>}` under `status`.
    pub fn text(status: Status, message: String) -> (response: Response)
        ensures
            response@ == ResponseView::text(status, message@),
    {
        Response { status, body: Envelope::Text { status: status.label(), message } }
    }

    /// The answer `{"status": .., "data": {"note": <note>}}` under `status`.
    pub fn data(status: Status, note: NoteModel) -> (response: Response)
        ensures
            response@ == ResponseView::data(status, note@),
    {
        Response { status, body: Envelope::Data { status: status.label(), note } }
    }

    /// The answer `{"status": .., "message": {"note": <note>}}` under
    /// `status`.
    pub fn message(status: Status, note: NoteModel) -> (response: Response)
        ensures
            response@ == ResponseView::message(status, note@),
    {
        Response { status, body: Envelope::Message { status: status.label(), note } }
    }

    /// The answer that lists `notes`, with their count, under `status`.
    pub fn list(status: Status, notes: Vec<NoteModel>) -> (response: Response)
        ensures
            response@ == ResponseView::list(status, note_views(notes@)),
    {
        let results: usize = notes.len();
        Response { status, body: Envelope::List { status: status.label(), results, notes } }
    }
}

} // verus!
