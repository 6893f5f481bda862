//! The binding of method and path to handler.

use vstd::prelude::*;

verus! {

/// The request methods the service binds.
#[derive(Debug, Clone, Copy, PartialEq, Eq, Structural)]
pub enum Method {
    Get,
    Post,
    Patch,
    Delete,
}

/// The paths the service binds.
#[derive(Debug, Clone, Copy, PartialEq, Eq, Structural)]
pub enum Path {
    /// `/healthz`
    Healthz,
    /// `/api/notes`
    Notes,
    /// `/api/notes/{id}`
    NoteById,
}

/// The operations a request can be bound to.
#[derive(Debug, Clone, Copy, PartialEq, Eq, Structural)]
pub enum Handler {
    Health,
    CreateNote,
    GetNote,
    GetAllNotes,
    UpdateNote,
    DeleteNote,
}

/// One binding of the routing table.
#[derive(Debug, Clone, Copy, PartialEq, Eq, Structural)]
pub struct Route {
    pub method: Method,
    pub path: Path,
    pub handler: Handler,
}

/// The text of a path, with the identifier segment in braces.
pub open spec fn pattern_text(path: Path) -> Seq<char> {
    match path {
        Path::Healthz => "/healthz"@,
        Path::Notes => "/api/notes"@,
        Path::NoteById => "/api/notes/{id}"@,
    }
}

impl Path {
    /// The text of the path, with the identifier segment in braces.
    pub fn pattern(self) -> (text: &'static str)
        ensures
            text@ == pattern_text(self),
    {
        match self {
            Path::Healthz => "/healthz",
            Path::Notes => "/api/notes",
            Path::NoteById => "/api/notes/{id}",
        }
    }
}

/// The routing table of the service.
pub open spec fn route_table() -> Seq<Route> {
    seq![
        Route { method: Method::Get, path: Path::Healthz, handler: Handler::Health },
        Route { method: Method::Post, path: Path::Notes, handler: Handler::CreateNote },
        Route { method: Method::Get, path: Path::NoteById, handler: Handler::GetNote },
        Route { method: Method::Get, path: Path::Notes, handler: Handler::GetAllNotes },
        Route { method: Method::Patch, path: Path::NoteById, handler: Handler::UpdateNote },
        Route { method: Method::Delete, path: Path::NoteById, handler: Handler::DeleteNote },
    ]
}

/// No method and path are bound twice, and every handler that works on one
/// note is bound to the path that carries an identifier.
pub open spec fn well_bound(table: Seq<Route>) -> bool {
    &&& forall|i: int, j: int|
        0 <= i < j < table.len() ==> !(table[i].method == table[j].method && table[i].path
            == table[j].path)
    &&& forall|i: int|
        0 <= i < table.len() ==> ((table[i].path == Path::NoteById) <==> (table[i].handler
            == Handler::GetNote || table[i].handler == Handler::UpdateNote || table[i].handler
            == Handler::DeleteNote))
}

/// Builds the routing table: six bindings, none of them twice.
pub fn create_router() -> (table: Vec<Route>)
    ensures
        table@ == route_table(),
        well_bound(table@),
{
    let mut table: Vec<Route> = Vec::new();
    table.push(Route { method: Method::Get, path: Path::Healthz, handler: Handler::Health });
    table.push(Route { method: Method::Post, path: Path::Notes, handler: Handler::CreateNote });
    table.push(Route { method: Method::Get, path: Path::NoteById, handler: Handler::GetNote });
    table.push(Route { method: Method::Get, path: Path::Notes, handler: Handler::GetAllNotes });
    table.push(Route { method: Method::Patch, path: Path::NoteById, handler: Handler::UpdateNote });
    table.push(
        Route { method: Method::Delete, path: Path::NoteById, handler: Handler::DeleteNote },
    );
    assert(table@ =~= route_table());
    table
}

} // verus!
