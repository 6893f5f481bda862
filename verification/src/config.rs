//! The fixed settings of the service: where it listens and which
//! cross-origin requests it admits.

use vstd::prelude::*;

use crate::routes::{route_table, Method};

verus! {

/// The address the service listens on.
pub const LISTEN_ADDRESS: &'static str = "0.0.0.0:8000";

/// The one origin that may call the service from a browser.
pub const ALLOWED_ORIGIN: &'static str = "http://localhost:3000";

/// The environment variable that holds the connection string of the
/// database.
pub const DATABASE_URL_VARIABLE: &'static str = "DATABASE_URL";

/// Cross-origin requests may carry credentials.
pub const ALLOW_CREDENTIALS: bool = true;

/// The methods a cross-origin request may use.
pub open spec fn allowed_methods_spec() -> Seq<Method> {
    seq![Method::Get, Method::Post, Method::Patch, Method::Delete]
}

/// The headers a cross-origin request may carry, in lower case.
pub open spec fn allowed_headers_spec() -> Seq<Seq<char>> {
    seq!["authorization"@, "accept"@, "content-type"@]
}

/// The methods a cross-origin request may use: every method that the
/// routing table binds.
pub fn allowed_methods() -> (methods: Vec<Method>)
    ensures
        methods@ == allowed_methods_spec(),
        forall|i: int|
            0 <= i < route_table().len() ==> methods@.contains(#[trigger] route_table()[i].method),
{
    let mut methods: Vec<Method> = Vec::new();
    methods.push(Method::Get);
    methods.push(Method::Post);
    methods.push(Method::Patch);
    methods.push(Method::Delete);
    assert(methods@ =~= allowed_methods_spec());
    assert(methods@[0] == Method::Get);
    assert(methods@[1] == Method::Post);
    assert(methods@[2] == Method::Patch);
    assert(methods@[3] == Method::Delete);
    methods
}

/// The headers a cross-origin request may carry, in lower case.
pub fn allowed_headers() -> (headers: Vec<&'static str>)
    ensures
        headers@.len() == allowed_headers_spec().len(),
        forall|i: int| 0 <= i < headers@.len() ==> headers@[i]@ == allowed_headers_spec()[i],
{
    let mut headers: Vec<&'static str> = Vec::new();
    headers.push("authorization");
    headers.push("accept");
    headers.push("content-type");
    headers
}

} // verus!
