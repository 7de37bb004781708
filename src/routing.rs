//! The routing table: which handler answers a request, by method and path.
use vstd::prelude::*;
use vstd::string::StringSliceAdditionalSpecFns;
use vstd::utf8::encode_utf8_decode_utf8;

use crate::reply::{greet, greet_reply, index, index_reply, not_found, not_found_reply, BodyView, Reply, ReplyView};

verus! {

/// The handler that a request reaches.
#[derive(PartialEq, Eq, Structural, Clone, Copy, Debug)]
pub enum Route {
    /// `GET /`: the JSON greeting.
    Index,
    /// `GET /greet`: the text greeting.
    Greet,
    /// Anything else.
    NotFound,
}

/// Routes match on the exact method name and the exact path.
pub open spec fn route_of(method: Seq<char>, path: Seq<char>) -> Route {
    if method == "GET"@ && path == "/"@ {
        Route::Index
    } else if method == "GET"@ && path == "/greet"@ {
        Route::Greet
    } else {
        Route::NotFound
    }
}

/// The reply that a route gives.
pub open spec fn reply_of(route: Route) -> ReplyView {
    match route {
        Route::Index => index_reply(),
        Route::Greet => greet_reply(),
        Route::NotFound => not_found_reply(),
    }
}

/// The reply to a request with the given method and path.
pub open spec fn response_of(method: Seq<char>, path: Seq<char>) -> ReplyView {
    reply_of(route_of(method, path))
}

/// Whether two strings hold the same characters, compared byte by byte.
fn same_text(a: &str, b: &str) -> (r: bool)
    ensures
        r == (a@ == b@),
{
    let x = a.as_bytes();
    let y = b.as_bytes();
    if x.len() != y.len() {
        return false;
    }
    let mut i: usize = 0;
    while i < x.len()
        invariant
            x@ == a.spec_bytes(),
            y@ == b.spec_bytes(),
            x@.len() == y@.len(),
            i <= x@.len(),
            forall|k: int| 0 <= k < i ==> x@[k] == y@[k],
        decreases x@.len() - i,
    {
        if x[i] != y[i] {
            return false;
        }
        i = i + 1;
    }
    proof {
        assert(x@ =~= y@);
        encode_utf8_decode_utf8(a@);
        encode_utf8_decode_utf8(b@);
    }
    true
}

/// The route that a request with this method and path reaches.
pub fn route(method: &str, path: &str) -> (r: Route)
    ensures
        r == route_of(method@, path@),
{
    if same_text(method, "GET") {
        if same_text(path, "/") {
            return Route::Index;
        }
        if same_text(path, "/greet") {
            return Route::Greet;
        }
    }
    Route::NotFound
}

/// Answers a request: routes it and runs the handler it reaches.
pub fn respond(method: &str, path: &str) -> (r: Reply)
    ensures
        r@ == response_of(method@, path@),
{
    match route(method, path) {
        Route::Index => index(),
        Route::Greet => greet(),
        Route::NotFound => not_found(),
    }
}

/// A reply depends on nothing but the request's method and path: repeating a
/// request gives the same reply, however often it is sent.
pub proof fn lemma_repeated_request_same_reply(
    method1: Seq<char>,
    path1: Seq<char>,
    method2: Seq<char>,
    path2: Seq<char>,
)
    requires
        method1 == method2,
        path1 == path2,
    ensures
        response_of(method1, path1) == response_of(method2, path2),
{
}

/// A request that is not `GET /` or `GET /greet` (another path, or another
/// method on either path) is answered with status 404, never with 200.
pub proof fn lemma_unrouted_request_not_ok(method: Seq<char>, path: Seq<char>)
    requires
        !(method == "GET"@ && (path == "/"@ || path == "/greet"@)),
    ensures
        response_of(method, path).status == 404,
        response_of(method, path).status != 200,
        response_of(method, path).body == BodyView::Empty,
{
}

} // verus!
