//! What holds of every request, proved from the definitions of the router.

use vstd::prelude::*;
use crate::handlers::{greeting, hello_text};
use crate::percent::percent_decoded;
use crate::response::{
    ResponseView, STATUS_METHOD_NOT_ALLOWED, STATUS_NOT_FOUND, STATUS_OK,
};
use crate::router::{hey_prefix, is_segment, response_to, route_of, Method, RouteView};

verus! {

/// `GET /` is answered with `200` and the fixed greeting, whatever the body of
/// the request. Nothing else of a request reaches the router, so the answer
/// cannot depend on headers or on a query string either.
pub proof fn law_hello_is_constant(body: Seq<char>)
    ensures
        response_to(Method::Get, "/"@, body) == ResponseView::text(hello_text()),
        response_to(Method::Get, "/"@, body).status == STATUS_OK,
        response_to(Method::Get, "/"@, body).body == "Hello, World!"@,
{
}

/// `POST /echo` is answered with `200` and the body of the request, character
/// for character.
pub proof fn law_echo_round_trip(body: Seq<char>)
    ensures
        response_to(Method::Post, "/echo"@, body) == ResponseView::text(body),
        response_to(Method::Post, "/echo"@, body).status == STATUS_OK,
        response_to(Method::Post, "/echo"@, body).body == body,
{
    reveal_strlit("/");
    reveal_strlit("/echo");
    assert("/echo"@.len() != "/"@.len());
}

/// A path made of `/hey/` and one segment matches the greeting route, with
/// that segment.
pub proof fn law_hey_route(segment: Seq<char>)
    requires
        is_segment(segment),
    ensures
        route_of(hey_prefix() + segment) == Some(RouteView::Hey { segment }),
{
    reveal_strlit("/");
    reveal_strlit("/echo");
    reveal_strlit("/hey/");
    let path = hey_prefix() + segment;
    assert(path.skip(5) == segment);
}

/// `GET /hey/{segment}` is answered with `200` and the greeting for the name
/// that the segment stands for, the segment being decoded once. Where the
/// segment holds no `%` the name is the segment itself.
pub proof fn law_hey_greets_name(segment: Seq<char>, body: Seq<char>)
    requires
        is_segment(segment),
    ensures
        response_to(Method::Get, hey_prefix() + segment, body) == ResponseView::text(
            greeting(percent_decoded(segment)),
        ),
        response_to(Method::Get, hey_prefix() + segment, body).status == STATUS_OK,
        !segment.contains('%') ==> response_to(Method::Get, hey_prefix() + segment, body).body
            == "Hey "@ + segment + "!"@,
{
    law_hey_route(segment);
}

/// `/hey/` followed by anything but one segment matches no route: not when
/// the name is left empty, and not when more segments follow.
pub proof fn law_hey_needs_one_segment(tail: Seq<char>)
    requires
        !is_segment(tail),
    ensures
        route_of(hey_prefix() + tail) is None,
{
    reveal_strlit("/");
    reveal_strlit("/echo");
    reveal_strlit("/hey/");
    let path = hey_prefix() + tail;
    assert(path[1] == 'h');
    assert(path.skip(5) == tail);
}

/// A path that matches a route is answered with `405`, a client error, when
/// the method is not the one that the route serves.
pub proof fn law_other_method_is_not_allowed(method: Method, path: Seq<char>, body: Seq<char>)
    requires
        route_of(path) matches Some(route) && route.method() != method,
    ensures
        response_to(method, path, body) == ResponseView::empty(STATUS_METHOD_NOT_ALLOWED),
        response_to(method, path, body).is_client_error(),
{
}

/// A path that matches no route is answered with `404`, a client error,
/// whatever the method and the body.
pub proof fn law_unmatched_path_is_client_error(method: Method, path: Seq<char>, body: Seq<char>)
    requires
        route_of(path) is None,
    ensures
        response_to(method, path, body) == ResponseView::empty(STATUS_NOT_FOUND),
        response_to(method, path, body).is_client_error(),
{
}

/// Every answer is either the `200` of a handler or a client error.
pub proof fn law_answers_are_ok_or_client_errors(method: Method, path: Seq<char>, body: Seq<char>)
    ensures
        response_to(method, path, body).status == STATUS_OK || response_to(
            method,
            path,
            body,
        ).is_client_error(),
{
}

} // verus!
