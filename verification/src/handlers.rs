//! The three handlers, each from the plain values of a request to a response.

use vstd::prelude::*;
use vstd::string::StringExecFns;
use crate::response::{Response, ResponseView};

verus! {

/// The body that `GET /` answers with.
pub open spec fn hello_text() -> Seq<char> {
    "Hello, World!"@
}

/// The greeting for `name`: `Hey `, then `name` as it is, then `!`.
pub open spec fn greeting(name: Seq<char>) -> Seq<char> {
    "Hey "@ + name + "!"@
}

/// Handles `GET /`: the fixed greeting, whatever else the request held.
pub fn hello() -> (r: Response)
    ensures
        r@ == ResponseView::text(hello_text()),
{
    Response::text(String::from_str("Hello, World!"))
}

/// Handles `POST /echo`: the request body comes back unchanged.
pub fn echo(req_body: String) -> (r: Response)
    ensures
        r@ == ResponseView::text(req_body@),
{
    Response::text(req_body)
}

/// Handles `GET /hey/{name}`: greets `name`, which is taken verbatim.
pub fn hey(name: String) -> (r: Response)
    ensures
        r@ == ResponseView::text(greeting(name@)),
{
    Response::text(String::from_str("Hey ").concat(name.as_str()).concat("!"))
}

} // verus!
