//! The replies the service sends, and their mathematical views.
use vstd::prelude::*;

verus! {

/// The record sent by the JSON route: a single text message.
#[derive(Debug, Clone, PartialEq, Eq)]
pub struct MyResponse {
    pub message: String,
}

/// What a reply carries after its status line.
#[derive(Debug, Clone, PartialEq, Eq)]
pub enum Body {
    /// A record to be sent as a JSON object.
    Json(MyResponse),
    /// Raw text, sent as it is.
    Text(String),
    /// No body at all.
    Empty,
}

/// A reply: an HTTP status code and a body.
#[derive(Debug, Clone, PartialEq, Eq)]
pub struct Reply {
    pub status: u16,
    pub body: Body,
}

/// The view of a body: the message or text as a sequence of characters.
pub enum BodyView {
    Json { message: Seq<char> },
    Text { text: Seq<char> },
    Empty,
}

/// The view of a reply.
pub struct ReplyView {
    pub status: u16,
    pub body: BodyView,
}

impl View for Body {
    type V = BodyView;

    open spec fn view(&self) -> BodyView {
        match self {
            Body::Json(r) => BodyView::Json { message: r.message@ },
            Body::Text(t) => BodyView::Text { text: t@ },
            Body::Empty => BodyView::Empty,
        }
    }
}

impl View for Reply {
    type V = ReplyView;

    open spec fn view(&self) -> ReplyView {
        ReplyView { status: self.status, body: self.body@ }
    }
}

/// The greeting that both routes send.
pub open spec fn greeting() -> Seq<char> {
    "Hello, RUST!"@
}

/// The reply of the JSON route: status 200, a record whose message is the greeting.
pub open spec fn index_reply() -> ReplyView {
    ReplyView { status: 200, body: BodyView::Json { message: greeting() } }
}

/// The reply of the text route: status 200, the greeting as raw text.
pub open spec fn greet_reply() -> ReplyView {
    ReplyView { status: 200, body: BodyView::Text { text: greeting() } }
}

/// The reply to a request that no route matches: status 404, no body.
pub open spec fn not_found_reply() -> ReplyView {
    ReplyView { status: 404, body: BodyView::Empty }
}

/// The media type announced for a body: JSON for a record, none otherwise.
pub open spec fn content_type_of(b: BodyView) -> Option<Seq<char>> {
    match b {
        BodyView::Json { .. } => Some("application/json"@),
        _ => None,
    }
}

impl Body {
    /// The value of the content-type header for this body, where one is set.
    pub fn content_type(&self) -> (r: Option<&'static str>)
        ensures
            match r {
                Some(t) => content_type_of(self@) == Some(t@),
                None => content_type_of(self@) is None,
            },
    {
        match self {
            Body::Json(_) => Some("application/json"),
            _ => None,
        }
    }
}

/// Handler of the JSON route.
pub fn index() -> (r: Reply)
    ensures
        r@ == index_reply(),
{
    let response_data = MyResponse { message: "Hello, RUST!".to_string() };
    Reply { status: 200, body: Body::Json(response_data) }
}

/// Handler of the text route.
pub fn greet() -> (r: Reply)
    ensures
        r@ == greet_reply(),
{
    Reply { status: 200, body: Body::Text("Hello, RUST!".to_string()) }
}

/// The reply to a request that no route matches.
pub fn not_found() -> (r: Reply)
    ensures
        r@ == not_found_reply(),
{
    Reply { status: 404, body: Body::Empty }
}

} // verus!
