use api::reply::{greet, index, not_found, Body, MyResponse, Reply};
use api::routing::{respond, route, Route};
use api::{LISTEN_HOST, LISTEN_PORT};

fn json_greeting() -> Reply {
    Reply {
        status: 200,
        body: Body::Json(MyResponse { message: "Hello, RUST!".to_string() }),
    }
}

fn text_greeting() -> Reply {
    Reply { status: 200, body: Body::Text("Hello, RUST!".to_string()) }
}

#[test]
fn index_sends_json_greeting() {
    let r = index();
    assert_eq!(r.status, 200);
    assert_eq!(r.body.content_type(), Some("application/json"));
    match &r.body {
        Body::Json(m) => assert_eq!(m.message, "Hello, RUST!"),
        other => panic!("expected a JSON body, got {:?}", other),
    }
    assert_eq!(r, json_greeting());
}

#[test]
fn greet_sends_text_greeting() {
    let r = greet();
    assert_eq!(r.status, 200);
    assert_eq!(r.body.content_type(), None);
    match &r.body {
        Body::Text(t) => assert_eq!(t.as_str(), "Hello, RUST!"),
        other => panic!("expected a text body, got {:?}", other),
    }
    assert_eq!(r, text_greeting());
}

#[test]
fn not_found_is_404_without_body() {
    let r = not_found();
    assert_eq!(r.status, 404);
    assert_eq!(r.body, Body::Empty);
    assert_eq!(r.body.content_type(), None);
}

#[test]
fn get_root_reaches_index() {
    assert_eq!(route("GET", "/"), Route::Index);
    assert_eq!(respond("GET", "/"), json_greeting());
}

#[test]
fn get_greet_reaches_greet() {
    assert_eq!(route("GET", "/greet"), Route::Greet);
    assert_eq!(respond("GET", "/greet"), text_greeting());
}

#[test]
fn repeated_requests_give_identical_replies() {
    let first_index = respond("GET", "/");
    let first_greet = respond("GET", "/greet");
    for _ in 0..50 {
        assert_eq!(respond("GET", "/"), first_index);
        assert_eq!(respond("GET", "/greet"), first_greet);
    }
}

#[test]
fn other_paths_are_not_found() {
    for path in ["/greet/", "/other", "", "/GREET", "//", "/greet/x", "greet", "/ "] {
        assert_eq!(route("GET", path), Route::NotFound, "path {:?}", path);
        let r = respond("GET", path);
        assert_ne!(r.status, 200);
        assert_eq!(r.status, 404);
        assert_eq!(r.body, Body::Empty);
    }
}

#[test]
fn other_methods_are_not_found() {
    for method in ["POST", "PUT", "DELETE", "HEAD", "PATCH", "OPTIONS", "get", "GETS", ""] {
        for path in ["/", "/greet"] {
            assert_eq!(route(method, path), Route::NotFound, "{} {}", method, path);
            let r = respond(method, path);
            assert_ne!(r.status, 200);
            assert_eq!(r.status, 404);
        }
    }
}

#[test]
fn non_ascii_paths_are_not_found() {
    assert_eq!(route("GET", "/gréet"), Route::NotFound);
    assert_eq!(route("GET", "/é"), Route::NotFound);
    assert_eq!(respond("GÉT", "/").status, 404);
}

#[test]
fn listens_on_every_interface_at_8090() {
    assert_eq!(LISTEN_HOST, "0.0.0.0");
    assert_eq!(LISTEN_PORT, 8090);
}
