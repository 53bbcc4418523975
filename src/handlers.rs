use vstd::prelude::*;
use vstd::string::*;
use crate::message::{text, text_response, Response, STATUS_NOT_FOUND, STATUS_OK};

verus! {

/// What `format!("{:?}", s)` writes for a string `s`: the text in double
/// quotes, with quotes, backslashes and control characters escaped.
pub uninterp spec fn debug_text(s: Seq<char>) -> Seq<char>;

/// Relies on std's `Debug` impl for `str`, which writes the string quoted and
/// escaped; the result depends on the characters alone.
#[verifier::external_body]
pub(crate) fn debug_quoted(s: &str) -> (r: String)
    ensures
        r@ == debug_text(s@),
{
    format!("{:?}", s)
}

/// Body of `GET /foo`.
pub open spec fn get_foo_text() -> Seq<char> {
    "GET foo"@
}

/// Body of `PUT /foo`.
pub open spec fn put_foo_text() -> Seq<char> {
    "PUT foo"@
}

/// Body of `PATCH /foo`.
pub open spec fn patch_foo_text() -> Seq<char> {
    "PATCH foo"@
}

/// Body of `POST /foo`.
pub open spec fn post_foo_text() -> Seq<char> {
    "POST foo"@
}

/// Body of `DELETE /foo`.
pub open spec fn delete_foo_text() -> Seq<char> {
    "DELETE foo"@
}

/// Handler of `GET /foo`.
pub fn get_foo() -> (r: String)
    ensures
        r@ == get_foo_text(),
{
    String::from_str("GET foo")
}

/// Handler of `PUT /foo`.
pub fn put_foo() -> (r: String)
    ensures
        r@ == put_foo_text(),
{
    String::from_str("PUT foo")
}

/// Handler of `PATCH /foo`.
pub fn patch_foo() -> (r: String)
    ensures
        r@ == patch_foo_text(),
{
    String::from_str("PATCH foo")
}

/// Handler of `POST /foo`.
pub fn post_foo() -> (r: String)
    ensures
        r@ == post_foo_text(),
{
    String::from_str("POST foo")
}

/// Handler of `DELETE /foo`.
pub fn delete_foo() -> (r: String)
    ensures
        r@ == delete_foo_text(),
{
    String::from_str("DELETE foo")
}

/// Body of `GET /demo-status`.
pub open spec fn demo_status_text() -> Seq<char> {
    "Everything is OK"@
}

/// Handler of `GET /demo-status`: status 200 with a fixed message.
pub fn demo_status() -> (r: (u16, String))
    ensures
        r.0 == STATUS_OK,
        r.1@ == demo_status_text(),
{
    (STATUS_OK, String::from_str("Everything is OK"))
}

/// Body of `GET /demo-uri` for the request URI `uri`.
pub open spec fn demo_uri_text(uri: Seq<char>) -> Seq<char> {
    "The URI is: "@ + uri
}

/// Handler of `GET /demo-uri`: echoes the request URI.
pub fn demo_uri(uri: &str) -> (r: String)
    ensures
        r@ == demo_uri_text(uri@),
{
    let mut s = String::from_str("The URI is: ");
    s.append(uri);
    s
}

/// Body of `GET /items/{id}` for the captured segment `id`.
pub open spec fn items_id_text(id: Seq<char>) -> Seq<char> {
    "Get items with path id: "@ + debug_text(id)
}

/// Handler of `GET /items/{id}`: reports the captured segment, quoted.
pub fn get_items_id(id: &str) -> (r: String)
    ensures
        r@ == items_id_text(id@),
{
    let mut s = String::from_str("Get items with path id: ");
    let quoted = debug_quoted(id);
    s.append(quoted.as_str());
    s
}

/// Body of the fallback response for the request URI `uri`.
pub open spec fn no_route_text(uri: Seq<char>) -> Seq<char> {
    "No route "@ + uri
}

/// Handler of every request that no route matches: status 404, naming the URI.
pub fn fallback(uri: &str) -> (r: Response)
    ensures
        r@ == text_response(STATUS_NOT_FOUND, no_route_text(uri@)),
{
    let mut s = String::from_str("No route ");
    s.append(uri);
    text(STATUS_NOT_FOUND, s)
}

} // verus!
