//! The response that a handler gives back, as plain values.

use vstd::prelude::*;

verus! {

/// Status of a successful response.
pub const STATUS_OK: u16 = 200;

/// Status of the response to a path that no route matches.
pub const STATUS_NOT_FOUND: u16 = 404;

/// Status of the response to a known path asked with a method it does not serve.
pub const STATUS_METHOD_NOT_ALLOWED: u16 = 405;

/// Media type of a response body.
#[derive(Clone, Copy, Debug, PartialEq, Eq)]
pub enum ContentType {
    /// `text/plain`, the text being UTF-8.
    TextPlain,
}

impl ContentType {
    /// The media type as it is written in a `Content-Type` header.
    pub fn as_str(&self) -> (s: &'static str)
        ensures
            s@ == "text/plain; charset=utf-8"@,
    {
        match self {
            ContentType::TextPlain => "text/plain; charset=utf-8",
        }
    }
}

/// An HTTP response: status, media type of the body if there is one, and body.
#[derive(Clone, Debug, PartialEq, Eq)]
pub struct Response {
    pub status: u16,
    pub content_type: Option<ContentType>,
    pub body: String,
}

/// What a [`Response`] means: the same fields, the body as a sequence of characters.
pub ghost struct ResponseView {
    pub status: u16,
    pub content_type: Option<ContentType>,
    pub body: Seq<char>,
}

impl ResponseView {
    /// The `200` response that carries `body` as plain text.
    pub open spec fn text(body: Seq<char>) -> ResponseView {
        ResponseView { status: STATUS_OK, content_type: Some(ContentType::TextPlain), body }
    }

    /// The response with the given status and no body.
    pub open spec fn empty(status: u16) -> ResponseView {
        ResponseView { status, content_type: None, body: Seq::empty() }
    }

    /// Whether the status is a client error, `400` to `499`.
    pub open spec fn is_client_error(self) -> bool {
        400 <= self.status < 500
    }
}

impl View for Response {
    type V = ResponseView;

    open spec fn view(&self) -> ResponseView {
        ResponseView { status: self.status, content_type: self.content_type, body: self.body@ }
    }
}

impl Response {
    /// Builds the `200` response that carries `body` as plain text.
    pub fn text(body: String) -> (r: Response)
        ensures
            r@ == ResponseView::text(body@),
    {
        Response { status: STATUS_OK, content_type: Some(ContentType::TextPlain), body }
    }

    /// Builds the response with the given status and no body.
    pub fn empty(status: u16) -> (r: Response)
        ensures
            r@ == ResponseView::empty(status),
    {
        Response { status, content_type: None, body: String::new() }
    }

    /// Tells whether the status is a client error, `400` to `499`.
    pub fn is_client_error(&self) -> (b: bool)
        ensures
            b == self@.is_client_error(),
    {
        400 <= self.status && self.status < 500
    }
}

} // verus!
