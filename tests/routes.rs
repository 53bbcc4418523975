use demo_server::assets::{demo_html, get_demo_png, DEMO_PAGE, DEMO_PNG_BASE64};
use demo_server::handlers::{
    delete_foo, demo_status, demo_uri, fallback, get_foo, get_items_id, patch_foo, post_foo, put_foo,
};
use demo_server::message::{Body, Method, Response};
use demo_server::percent::{percent_decode, percent_decode_text};
use demo_server::query::{format_map, get_items, last_wins_entries};
use demo_server::router::{dispatch, find_route, path_end, Route};

const PNG_BYTES: [u8; 70] = [
    137, 80, 78, 71, 13, 10, 26, 10, 0, 0, 0, 13, 73, 72, 68, 82, 0, 0, 0, 1, 0, 0, 0, 1, 8, 6, 0,
    0, 0, 31, 21, 196, 137, 0, 0, 0, 13, 73, 68, 65, 84, 120, 218, 99, 228, 251, 207, 80, 15, 0, 3,
    190, 1, 142, 72, 124, 209, 128, 0, 0, 0, 0, 73, 69, 78, 68, 174, 66, 96, 130,
];

fn pairs(items: &[(&str, &str)]) -> Vec<(String, String)> {
    items.iter().map(|(k, v)| (k.to_string(), v.to_string())).collect()
}

fn text_of(r: &Response) -> String {
    match &r.body {
        Body::Text(s) => s.clone(),
        other => panic!("expected a text body, got {:?}", other),
    }
}

#[test]
fn unmatched_paths_get_not_found() {
    for target in ["/nope", "/", "/foo/bar", "/items/", "/items/1/2", "/demo.htm"] {
        let r = dispatch(Method::Get, target, Some(vec![]));
        assert_eq!(r.status, 404);
        assert!(r.headers.is_empty());
        assert_eq!(text_of(&r), format!("No route {}", target));
    }
}

#[test]
fn unlisted_methods_get_not_found() {
    let cases = [
        (Method::Other, "/foo"),
        (Method::Post, "/items"),
        (Method::Delete, "/items/42"),
        (Method::Put, "/demo.html"),
        (Method::Patch, "/demo-status?x=1"),
        (Method::Other, "/demo.png"),
    ];
    for (method, target) in cases {
        let r = dispatch(method, target, Some(vec![]));
        assert_eq!(r.status, 404);
        let body = text_of(&r);
        assert_eq!(body, format!("No route {}", target));
        let path = target.split('?').next().unwrap();
        assert!(body.contains(path));
    }
}

#[test]
fn fallback_names_the_uri() {
    let r = fallback("/missing?a=1");
    assert_eq!(r.status, 404);
    assert_eq!(text_of(&r), "No route /missing?a=1");
}

#[test]
fn foo_answers_each_method() {
    let cases = [
        (Method::Get, "GET foo"),
        (Method::Put, "PUT foo"),
        (Method::Patch, "PATCH foo"),
        (Method::Post, "POST foo"),
        (Method::Delete, "DELETE foo"),
    ];
    for (method, expected) in cases {
        let r = dispatch(method, "/foo", Some(vec![]));
        assert_eq!(r.status, 200);
        assert_eq!(text_of(&r), expected);
    }
}

#[test]
fn foo_ignores_the_query_string() {
    let r = dispatch(Method::Put, "/foo?a=b", Some(pairs(&[("a", "b")])));
    assert_eq!(r.status, 200);
    assert_eq!(text_of(&r), "PUT foo");
}

#[test]
fn foo_handlers_return_their_bodies() {
    assert_eq!(get_foo(), "GET foo");
    assert_eq!(put_foo(), "PUT foo");
    assert_eq!(patch_foo(), "PATCH foo");
    assert_eq!(post_foo(), "POST foo");
    assert_eq!(delete_foo(), "DELETE foo");
}

#[test]
fn items_reports_query_map() {
    let r = dispatch(Method::Get, "/items?x=1&y=2", Some(pairs(&[("x", "1"), ("y", "2")])));
    assert_eq!(r.status, 200);
    let body = text_of(&r);
    assert_eq!(body, "Get items with query params: {\"x\": \"1\", \"y\": \"2\"}");
    assert!(body.contains("\"x\": \"1\""));
    assert!(body.contains("\"y\": \"2\""));
}

#[test]
fn items_without_query_reports_empty_map() {
    let r = dispatch(Method::Get, "/items", Some(vec![]));
    assert_eq!(r.status, 200);
    assert_eq!(text_of(&r), "Get items with query params: {}");
}

#[test]
fn items_repeated_key_keeps_last_value() {
    let params = pairs(&[("x", "1"), ("y", "2"), ("x", "3")]);
    assert_eq!(last_wins_entries(&params), pairs(&[("y", "2"), ("x", "3")]));
    assert_eq!(get_items(&params), "Get items with query params: {\"y\": \"2\", \"x\": \"3\"}");
}

#[test]
fn items_escapes_quotes_in_map() {
    let entries = pairs(&[("a\"b", "c\\d")]);
    assert_eq!(format_map(&entries), "{\"a\\\"b\": \"c\\\\d\"}");
}

#[test]
fn items_with_undecodable_query_is_bad_request() {
    let r = dispatch(Method::Get, "/items?%", None);
    assert_eq!(r.status, 400);
    assert_eq!(text_of(&r), "Failed to deserialize query string");
}

#[test]
fn items_id_reports_segment() {
    let r = dispatch(Method::Get, "/items/42", Some(vec![]));
    assert_eq!(r.status, 200);
    let body = text_of(&r);
    assert!(body.contains("42"));
    assert_eq!(body, "Get items with path id: \"42\"");
}

#[test]
fn items_id_with_query_reports_segment_only() {
    let r = dispatch(Method::Get, "/items/abc?z=9", Some(pairs(&[("z", "9")])));
    assert_eq!(r.status, 200);
    assert_eq!(text_of(&r), "Get items with path id: \"abc\"");
}

#[test]
fn items_id_handler_quotes_and_escapes() {
    assert_eq!(get_items_id("42"), "Get items with path id: \"42\"");
    assert_eq!(get_items_id("a\"b"), "Get items with path id: \"a\\\"b\"");
}

#[test]
fn demo_png_serves_decoded_image() {
    let r = dispatch(Method::Get, "/demo.png", Some(vec![]));
    assert_eq!(r.status, 200);
    assert_eq!(r.headers, pairs(&[("content-type", "image/png")]));
    match &r.body {
        Body::Bytes(b) => {
            assert_eq!(b.as_slice(), &PNG_BYTES[..]);
            assert_eq!(*b, base64::decode(DEMO_PNG_BASE64).unwrap());
        }
        other => panic!("expected bytes, got {:?}", other),
    }
}

#[test]
fn demo_png_handler_decodes_payload() {
    let r = get_demo_png();
    assert_eq!(r.status, 200);
    match r.body {
        Body::Bytes(b) => assert_eq!(b, PNG_BYTES.to_vec()),
        other => panic!("expected bytes, got {:?}", other),
    }
}

#[test]
fn items_id_is_percent_decoded() {
    let r = dispatch(Method::Get, "/items/a%20b", Some(vec![]));
    assert_eq!(r.status, 200);
    assert_eq!(text_of(&r), "Get items with path id: \"a b\"");
    let r = dispatch(Method::Get, "/items/caf%C3%A9", Some(vec![]));
    assert_eq!(text_of(&r), "Get items with path id: \"caf\u{e9}\"");
    let r = dispatch(Method::Get, "/items/100%25", Some(vec![]));
    assert_eq!(text_of(&r), "Get items with path id: \"100%\"");
}

#[test]
fn items_id_keeps_lone_percent() {
    let r = dispatch(Method::Get, "/items/%zz%4", Some(vec![]));
    assert_eq!(r.status, 200);
    assert_eq!(text_of(&r), "Get items with path id: \"%zz%4\"");
}

#[test]
fn items_id_not_utf8_is_bad_request() {
    let r = dispatch(Method::Get, "/items/%FF", Some(vec![]));
    assert_eq!(r.status, 400);
    assert_eq!(text_of(&r), "Invalid URL: Invalid UTF-8 in `id`");
}

#[test]
fn percent_decoding_of_bytes_and_text() {
    assert_eq!(percent_decode(&b"a%2Fb%2fc%".to_vec()), b"a/b/c%".to_vec());
    assert_eq!(percent_decode(&b"%41%4a%g1".to_vec()), b"AJ%g1".to_vec());
    assert_eq!(percent_decode_text("x%20y"), Some("x y".to_string()));
    assert_eq!(percent_decode_text("%C3%28"), None);
}

#[test]
fn demo_html_serves_page() {
    let r = dispatch(Method::Get, "/demo.html", Some(vec![]));
    assert_eq!(r.status, 200);
    match &r.body {
        Body::Html(s) => assert_eq!(s, DEMO_PAGE),
        other => panic!("expected html, got {:?}", other),
    }
    assert_eq!(demo_html(), DEMO_PAGE);
}

#[test]
fn demo_status_is_ok() {
    assert_eq!(demo_status(), (200, "Everything is OK".to_string()));
    let r = dispatch(Method::Get, "/demo-status", Some(vec![]));
    assert_eq!(r.status, 200);
    assert_eq!(text_of(&r), "Everything is OK");
}

#[test]
fn demo_uri_echoes_target() {
    assert_eq!(demo_uri("/demo-uri"), "The URI is: /demo-uri");
    let r = dispatch(Method::Get, "/demo-uri?a=b", Some(pairs(&[("a", "b")])));
    assert_eq!(r.status, 200);
    assert_eq!(text_of(&r), "The URI is: /demo-uri?a=b");
}

#[test]
fn path_ends_at_first_question_mark() {
    assert_eq!(path_end("/items?x=1?y"), 6);
    assert_eq!(path_end("/items"), 6);
    assert_eq!(path_end(""), 0);
    assert_eq!(path_end("?a"), 0);
}

#[test]
fn routes_are_found_by_method_and_path() {
    assert_eq!(find_route(Method::Get, "/items"), Some(Route::Items));
    assert_eq!(find_route(Method::Get, "/items/7"), Some(Route::ItemsId));
    assert_eq!(find_route(Method::Get, "/items/"), None);
    assert_eq!(find_route(Method::Patch, "/foo"), Some(Route::PatchFoo));
    assert_eq!(find_route(Method::Post, "/demo.png"), None);
    assert_eq!(find_route(Method::Get, "/demo.png"), Some(Route::DemoPng));
}
