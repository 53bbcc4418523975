use vstd::prelude::*;
use vstd::string::*;
use crate::message::{Body, BodyView, Response, ResponseView, STATUS_OK};

verus! {

/// The page served at `/demo.html`.
pub const DEMO_PAGE: &'static str = "<!DOCTYPE html>\n<html>\n<head><title>Demo</title></head>\n<body>\n<h1>Hello from the demo server</h1>\n</body>\n</html>\n";

/// A 1x1 PNG image, base64-encoded with the standard alphabet.
pub const DEMO_PNG_BASE64: &'static str = "iVBORw0KGgoAAAANSUhEUgAAAAEAAAABCAYAAAAfFcSJAAAADUlEQVR42mPk+89QDwADvgGOSHzRgAAAAABJRU5ErkJggg==";

/// The error that `base64::decode` reports.
#[verifier::external_type_specification]
#[verifier::external_body]
pub struct ExDecodeError(base64::DecodeError);

/// The bytes that the standard-alphabet base64 text `s` encodes.
pub uninterp spec fn base64_decoded(s: Seq<char>) -> Seq<u8>;

/// The value of a symbol of the standard base64 alphabet.
pub open spec fn base64_symbol(c: char) -> Option<int> {
    if 'A' <= c && c <= 'Z' {
        Some(c as int - 'A' as int)
    } else if 'a' <= c && c <= 'z' {
        Some(c as int - 'a' as int + 26)
    } else if '0' <= c && c <= '9' {
        Some(c as int - '0' as int + 52)
    } else if c == '+' {
        Some(62)
    } else if c == '/' {
        Some(63)
    } else {
        None
    }
}

/// Each character of `s` from position `i` up to `end` is a base64 symbol.
pub open spec fn symbols_between(s: Seq<char>, i: int, end: int) -> bool
    decreases end - i,
{
    i >= end || (base64_symbol(s[i]) is Some && symbols_between(s, i + 1, end))
}

/// How many `=` end the text: two, one or none.
pub open spec fn padding_len(s: Seq<char>) -> int {
    let n = s.len() as int;
    if n >= 2 && s[n - 2] == '=' && s[n - 1] == '=' {
        2
    } else if n >= 1 && s[n - 1] == '=' {
        1
    } else {
        0
    }
}

/// `s` is canonical padded base64: whole groups of four characters, all of
/// them symbols but one or two closing `=`, and the bits of the last symbol
/// that the padding leaves unused are zero.
pub open spec fn is_padded_base64(s: Seq<char>) -> bool {
    let n = s.len() as int;
    let pad = padding_len(s);
    &&& n % 4 == 0
    &&& symbols_between(s, 0, n - pad)
    &&& pad == 2 ==> base64_symbol(s[n - 3])->0 % 16 == 0
    &&& pad == 1 ==> base64_symbol(s[n - 2])->0 % 4 == 0
}

/// Relies on `base64::decode` (standard alphabet): it succeeds on canonical
/// padded text, and when it succeeds it returns the bytes that the text
/// encodes.
#[verifier::external_body]
fn decode_base64(s: &str) -> (r: Result<Vec<u8>, base64::DecodeError>)
    ensures
        is_padded_base64(s@) ==> r is Ok,
        r is Ok ==> r->Ok_0@ == base64_decoded(s@),
{
    base64::decode(s)
}

/// The embedded image text is canonical padded base64.
pub proof fn lemma_demo_png_is_padded_base64()
    ensures
        is_padded_base64(DEMO_PNG_BASE64@),
{
    reveal_strlit("iVBORw0KGgoAAAANSUhEUgAAAAEAAAABCAYAAAAfFcSJAAAADUlEQVR42mPk+89QDwADvgGOSHzRgAAAAABJRU5ErkJggg==");
    let t = DEMO_PNG_BASE64@;
    assert(t.len() == 96);
    assert(padding_len(t) == 2);
    assert(symbols_between(t, 0, 94)) by {
        reveal_with_fuel(symbols_between, 96);
    }
}

/// Handler of `GET /demo.html`: the embedded page.
pub fn demo_html() -> (r: String)
    ensures
        r@ == DEMO_PAGE@,
{
    String::from_str(DEMO_PAGE)
}

/// The response that serves `bytes` as a PNG image.
pub open spec fn png_response_view(bytes: Seq<u8>) -> ResponseView {
    ResponseView {
        status: STATUS_OK,
        headers: seq![("content-type"@, "image/png"@)],
        body: BodyView::Bytes(bytes),
    }
}

/// Serves `bytes` as a PNG image: status 200 and `Content-Type: image/png`.
pub fn png_response(bytes: Vec<u8>) -> (r: Response)
    ensures
        r@ == png_response_view(bytes@),
{
    let mut headers: Vec<(String, String)> = Vec::new();
    headers.push((String::from_str("content-type"), String::from_str("image/png")));
    let r = Response { status: STATUS_OK, headers, body: Body::Bytes(bytes) };
    assert(r@.headers =~= seq![("content-type"@, "image/png"@)]);
    r
}

/// Handler of `GET /demo.png`: the embedded image, decoded.
pub fn get_demo_png() -> (r: Response)
    ensures
        r@ == png_response_view(base64_decoded(DEMO_PNG_BASE64@)),
{
    proof {
        lemma_demo_png_is_padded_base64();
    }
    let bytes = decode_base64(DEMO_PNG_BASE64).unwrap();
    png_response(bytes)
}

} // verus!
