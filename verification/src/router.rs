//! The route table and the dispatch of a request to its handler.

use vstd::prelude::*;
use crate::handlers::{echo, greeting, hello, hello_text, hey};
use crate::percent::{percent_decode, percent_decoded};
use crate::response::{Response, ResponseView, STATUS_METHOD_NOT_ALLOWED, STATUS_NOT_FOUND};
use crate::text::{contains_char, same_text, strip_prefix};

verus! {

/// An HTTP request method.
#[derive(Clone, Copy, Debug, PartialEq, Eq, Structural)]
pub enum Method {
    Get,
    Head,
    Post,
    Put,
    Delete,
    Connect,
    Options,
    Trace,
    Patch,
    /// Any method that has no variant of its own.
    Other,
}

/// A route that a path matched.
#[derive(Clone, Copy, Debug, PartialEq, Eq)]
pub enum Route<'a> {
    /// `/`
    Hello,
    /// `/echo`
    Echo,
    /// `/hey/{name}`, with the segment that stands for `name`, still encoded.
    Hey { segment: &'a str },
}

/// What a [`Route`] means: the same variants, the segment as a sequence of characters.
pub ghost enum RouteView {
    Hello,
    Echo,
    Hey { segment: Seq<char> },
}

impl<'a> View for Route<'a> {
    type V = RouteView;

    open spec fn view(&self) -> RouteView {
        match *self {
            Route::Hello => RouteView::Hello,
            Route::Echo => RouteView::Echo,
            Route::Hey { segment } => RouteView::Hey { segment: segment@ },
        }
    }
}

impl RouteView {
    /// The one method that the route serves.
    pub open spec fn method(self) -> Method {
        match self {
            RouteView::Hello => Method::Get,
            RouteView::Echo => Method::Post,
            RouteView::Hey { .. } => Method::Get,
        }
    }

    /// The response of the route's handler to a request with the given body.
    pub open spec fn answer(self, body: Seq<char>) -> ResponseView {
        match self {
            RouteView::Hello => ResponseView::text(hello_text()),
            RouteView::Echo => ResponseView::text(body),
            RouteView::Hey { segment } => ResponseView::text(greeting(percent_decoded(segment))),
        }
    }
}

/// The path of the greeting route up to the name.
pub open spec fn hey_prefix() -> Seq<char> {
    "/hey/"@
}

/// Whether `s` can stand for a name in a path: it is not empty and holds no `/`.
pub open spec fn is_segment(s: Seq<char>) -> bool {
    s.len() > 0 && !s.contains('/')
}

/// The route that `path` matches, if any.
///
/// `/` and `/echo` match as they are written. `/hey/` followed by one segment
/// matches the greeting route; followed by nothing, or by more than one
/// segment, it matches no route.
pub open spec fn route_of(path: Seq<char>) -> Option<RouteView> {
    if path == "/"@ {
        Some(RouteView::Hello)
    } else if path == "/echo"@ {
        Some(RouteView::Echo)
    } else if hey_prefix().is_prefix_of(path) && is_segment(path.skip(hey_prefix().len() as int)) {
        Some(RouteView::Hey { segment: path.skip(hey_prefix().len() as int) })
    } else {
        None
    }
}

/// The response to a request, from its method, path and body.
///
/// A path that matches no route gets `404`. A path that matches a route gets
/// the handler's answer when the method is the one the route serves, and `405`
/// when it is another.
pub open spec fn response_to(method: Method, path: Seq<char>, body: Seq<char>) -> ResponseView {
    match route_of(path) {
        None => ResponseView::empty(STATUS_NOT_FOUND),
        Some(route) => if route.method() == method {
            route.answer(body)
        } else {
            ResponseView::empty(STATUS_METHOD_NOT_ALLOWED)
        },
    }
}

impl<'a> Route<'a> {
    /// The one method that the route serves.
    pub fn method(&self) -> (m: Method)
        ensures
            m == self@.method(),
    {
        match self {
            Route::Hello => Method::Get,
            Route::Echo => Method::Post,
            Route::Hey { .. } => Method::Get,
        }
    }

    /// Runs the route's handler on a request with the given body.
    pub fn answer(&self, body: String) -> (r: Response)
        ensures
            r@ == self@.answer(body@),
    {
        match self {
            Route::Hello => hello(),
            Route::Echo => echo(body),
            Route::Hey { segment } => hey(percent_decode(segment)),
        }
    }
}

/// Finds the route that `path` matches. `path` is the path of the request
/// alone, without a query string.
pub fn resolve<'a>(path: &'a str) -> (r: Option<Route<'a>>)
    ensures
        match r {
            Some(route) => route_of(path@) == Some(route@),
            None => route_of(path@) is None,
        },
{
    if same_text(path, "/") {
        Some(Route::Hello)
    } else if same_text(path, "/echo") {
        Some(Route::Echo)
    } else {
        match strip_prefix(path, "/hey/") {
            Some(segment) => {
                assert(path@.skip(hey_prefix().len() as int) == segment@);
                if !segment.is_empty() && !contains_char(segment, '/') {
                    Some(Route::Hey { segment })
                } else {
                    None
                }
            },
            None => None,
        }
    }
}

/// Answers a request: finds the route of `path`, checks `method` against it and
/// runs the handler. Only the method, the path and the body of a request have a
/// say in the answer.
pub fn dispatch(method: Method, path: &str, body: String) -> (r: Response)
    ensures
        r@ == response_to(method, path@, body@),
{
    match resolve(path) {
        None => Response::empty(STATUS_NOT_FOUND),
        Some(route) => {
            if route.method() == method {
                route.answer(body)
            } else {
                Response::empty(STATUS_METHOD_NOT_ALLOWED)
            }
        },
    }
}

} // verus!
