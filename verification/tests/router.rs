use actix_router::ResourceDef;
use hello_web::response::{ContentType, Response};
use hello_web::router::{dispatch, resolve, Method, Route};

const METHODS: [Method; 10] = [
    Method::Get,
    Method::Head,
    Method::Post,
    Method::Put,
    Method::Delete,
    Method::Connect,
    Method::Options,
    Method::Trace,
    Method::Patch,
    Method::Other,
];

fn text(body: &str) -> Response {
    Response { status: 200, content_type: Some(ContentType::TextPlain), body: String::from(body) }
}

fn empty(status: u16) -> Response {
    Response { status, content_type: None, body: String::new() }
}

fn get(path: &str) -> Response {
    dispatch(Method::Get, path, String::new())
}

#[test]
fn get_root_is_hello_world() {
    assert_eq!(get("/"), text("Hello, World!"));
}

#[test]
fn get_root_ignores_the_body() {
    assert_eq!(dispatch(Method::Get, "/", String::from("ignored")), text("Hello, World!"));
}

#[test]
fn post_echo_returns_ping() {
    assert_eq!(dispatch(Method::Post, "/echo", String::from("ping")), text("ping"));
}

#[test]
fn post_echo_returns_any_body() {
    for body in ["", " ", "ping", "a\nb", "\u{e9}\u{4e16}\u{1f600}", "%41", "{\"k\": [1, 2]}"] {
        assert_eq!(dispatch(Method::Post, "/echo", String::from(body)), text(body));
    }
}

#[test]
fn get_hey_ada() {
    assert_eq!(get("/hey/Ada"), text("Hey Ada!"));
}

#[test]
fn get_hey_with_empty_name_is_not_found() {
    assert_eq!(get("/hey/"), empty(404));
}

#[test]
fn get_missing_is_not_found() {
    assert_eq!(get("/missing"), empty(404));
}

#[test]
fn get_hey_decodes_the_name_once() {
    assert_eq!(get("/hey/Ada%20Lovelace"), text("Hey Ada Lovelace!"));
    assert_eq!(get("/hey/a%2Fb"), text("Hey a/b!"));
    assert_eq!(get("/hey/%2541"), text("Hey %41!"));
    assert_eq!(get("/hey/caf%C3%A9"), text("Hey caf\u{e9}!"));
    assert_eq!(get("/hey/%FF"), text("Hey \u{fffd}!"));
    assert_eq!(get("/hey/100%"), text("Hey 100%!"));
}

#[test]
fn get_hey_takes_the_name_verbatim() {
    assert_eq!(get("/hey/a+b"), text("Hey a+b!"));
    assert_eq!(get("/hey/<b>"), text("Hey <b>!"));
    assert_eq!(get("/hey/hey"), text("Hey hey!"));
    assert_eq!(get("/hey/echo"), text("Hey echo!"));
    assert_eq!(get("/hey/\u{4e16}\u{754c}"), text("Hey \u{4e16}\u{754c}!"));
    assert_eq!(get("/hey/ "), text("Hey  !"));
    assert_eq!(get("/hey/?"), text("Hey ?!"));
}

#[test]
fn get_hey_ignores_the_body() {
    assert_eq!(dispatch(Method::Get, "/hey/Ada", String::from("ignored")), text("Hey Ada!"));
}

#[test]
fn more_than_one_segment_is_not_found() {
    assert_eq!(get("/hey/a/b"), empty(404));
    assert_eq!(get("/hey/Ada/"), empty(404));
    assert_eq!(get("/hey//"), empty(404));
    assert_eq!(get("/hey//Ada"), empty(404));
}

#[test]
fn unmatched_paths_are_client_errors() {
    let paths = [
        "", "//", "/hey", "/hey/", "/Hey/Ada", "/echo/", "/Echo", "/echoo", "/ech", "/hello",
        "/missing", "hey/Ada", "echo", " /", "/ ", "/index.html", "/\u{e9}",
    ];
    for path in paths {
        for method in METHODS {
            let r = dispatch(method, path, String::from("body"));
            assert_eq!(r, empty(404));
            assert!(r.is_client_error());
        }
    }
}

#[test]
fn another_method_is_not_allowed() {
    for method in METHODS {
        if method != Method::Get {
            assert_eq!(dispatch(method, "/", String::new()), empty(405));
            assert_eq!(dispatch(method, "/hey/Ada", String::new()), empty(405));
        }
        if method != Method::Post {
            assert_eq!(dispatch(method, "/echo", String::from("ping")), empty(405));
        }
    }
    assert!(dispatch(Method::Post, "/", String::new()).is_client_error());
}

#[test]
fn resolve_finds_the_route() {
    assert_eq!(resolve("/"), Some(Route::Hello));
    assert_eq!(resolve("/echo"), Some(Route::Echo));
    assert_eq!(resolve("/hey/Ada"), Some(Route::Hey { segment: "Ada" }));
    assert_eq!(resolve("/hey/a%2Fb"), Some(Route::Hey { segment: "a%2Fb" }));
    assert_eq!(resolve("/hey/"), None);
    assert_eq!(resolve("/hey/a/b"), None);
    assert_eq!(resolve("/missing"), None);
    assert_eq!(resolve(""), None);
}

#[test]
fn each_route_serves_one_method() {
    assert_eq!(Route::Hello.method(), Method::Get);
    assert_eq!(Route::Echo.method(), Method::Post);
    assert_eq!(Route::Hey { segment: "Ada" }.method(), Method::Get);
}

#[test]
fn route_answers_through_its_handler() {
    assert_eq!(Route::Hello.answer(String::from("x")), text("Hello, World!"));
    assert_eq!(Route::Echo.answer(String::from("x")), text("x"));
    assert_eq!(Route::Hey { segment: "A%64a" }.answer(String::from("x")), text("Hey Ada!"));
}

#[test]
fn routes_match_what_their_patterns_match() {
    let hello = ResourceDef::new("/");
    let echo = ResourceDef::new("/echo");
    let hey = ResourceDef::new("/hey/{name}");
    let paths = [
        "", "/", "//", "/echo", "/echo/", "/echo/x", "/ech", "/echoo", "/Echo", "/hey", "/hey/",
        "/hey/Ada", "/hey/Ada/", "/hey/a/b", "/hey//", "/hey//a", "/hey/a%2Fb", "/hey/%", "/hey/ ",
        "/hey/a\nb", "/hey/a\r\nb", "/hey/\n", "/hey/\u{e9}", "/hey/\u{4e16}\u{754c}", "/hey/.",
        "/hey/..", "/hey/{name}", "/hey/a?b", "/hey/a#b", "/Hey/Ada", "/heyy/Ada", "hey/Ada",
        "/missing", "/hey/echo", "/echo/hey", " /", "/ ",
    ];
    for path in paths {
        let route = resolve(path);
        assert_eq!(matches!(route, Some(Route::Hello)), hello.is_match(path));
        assert_eq!(matches!(route, Some(Route::Echo)), echo.is_match(path));
        assert_eq!(matches!(route, Some(Route::Hey { .. })), hey.is_match(path));
    }
}
