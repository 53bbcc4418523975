use vstd::prelude::*;

verus! {

/// The request methods that the route table tells apart.
#[derive(Clone, Copy, Debug, PartialEq, Eq, Structural)]
pub enum Method {
    Get,
    Put,
    Patch,
    Post,
    Delete,
    /// Any method for which no route is registered (HEAD, OPTIONS, ...).
    Other,
}

/// What a response carries.
#[derive(Clone, Debug)]
pub enum Body {
    /// Plain UTF-8 text.
    Text(String),
    /// An HTML document.
    Html(String),
    /// Raw bytes, typed by a `Content-Type` header of the response.
    Bytes(Vec<u8>),
}

/// A response: a status code, extra headers, and a body.
#[derive(Clone, Debug)]
pub struct Response {
    pub status: u16,
    pub headers: Vec<(String, String)>,
    pub body: Body,
}

/// The mathematical value of a body.
pub enum BodyView {
    Text(Seq<char>),
    Html(Seq<char>),
    Bytes(Seq<u8>),
}

/// The mathematical value of a response.
pub struct ResponseView {
    pub status: u16,
    pub headers: Seq<(Seq<char>, Seq<char>)>,
    pub body: BodyView,
}

impl View for Body {
    type V = BodyView;

    open spec fn view(&self) -> BodyView {
        match self {
            Body::Text(s) => BodyView::Text(s@),
            Body::Html(s) => BodyView::Html(s@),
            Body::Bytes(b) => BodyView::Bytes(b@),
        }
    }
}

impl View for Response {
    type V = ResponseView;

    open spec fn view(&self) -> ResponseView {
        ResponseView {
            status: self.status,
            headers: self.headers@.map_values(|h: (String, String)| (h.0@, h.1@)),
            body: self.body@,
        }
    }
}

/// Status code of a successful request.
pub const STATUS_OK: u16 = 200;

/// Status code of a request that no route matches.
pub const STATUS_NOT_FOUND: u16 = 404;

/// Status code of a request whose query string cannot be decoded.
pub const STATUS_BAD_REQUEST: u16 = 400;

/// A plain-text response with the given status and no extra headers.
pub open spec fn text_response(status: u16, text: Seq<char>) -> ResponseView {
    ResponseView { status, headers: Seq::empty(), body: BodyView::Text(text) }
}

/// Builds a plain-text response with the given status and no extra headers.
pub fn text(status: u16, body: String) -> (r: Response)
    ensures
        r@ == text_response(status, body@),
{
    let r = Response { status, headers: Vec::new(), body: Body::Text(body) };
    assert(r@.headers =~= Seq::<(Seq<char>, Seq<char>)>::empty());
    r
}

} // verus!
