use vstd::prelude::*;
use vstd::string::*;
use crate::assets::{base64_decoded, demo_html, get_demo_png, png_response_view, DEMO_PAGE, DEMO_PNG_BASE64};
use crate::handlers::{
    delete_foo, delete_foo_text, demo_status, demo_status_text, demo_uri, demo_uri_text, fallback,
    get_foo, get_foo_text, get_items_id, items_id_text, no_route_text, patch_foo, patch_foo_text,
    post_foo, post_foo_text, put_foo, put_foo_text,
};
use crate::message::{
    text, text_response, Body, BodyView, Method, Response, ResponseView, STATUS_BAD_REQUEST,
    STATUS_NOT_FOUND, STATUS_OK,
};
use crate::percent::{percent_decode_text, percent_decoded_text};
use crate::query::{get_items, items_query_text, params_view, ParamView};

verus! {

/// The registered routes, one per (method, path pattern).
#[derive(Clone, Copy, Debug, PartialEq, Eq, Structural)]
pub enum Route {
    DemoHtml,
    DemoStatus,
    DemoUri,
    DemoPng,
    GetFoo,
    PutFoo,
    PatchFoo,
    PostFoo,
    DeleteFoo,
    Items,
    /// `/items/{id}`: one non-empty segment after `/items/`.
    ItemsId,
}

/// `k` is where the path of the request target `t` ends: at its first `?`,
/// or at its end when it has none.
pub open spec fn is_path_end(t: Seq<char>, k: int) -> bool {
    &&& 0 <= k <= t.len()
    &&& forall|m: int| 0 <= m < k ==> #[trigger] t[m] != '?'
    &&& (k == t.len() || t[k] == '?')
}

/// The path of a request target: what precedes its first `?`.
pub open spec fn path_of(t: Seq<char>) -> Seq<char> {
    t.subrange(0, choose|k: int| is_path_end(t, k))
}

/// The prefix of the item paths.
pub open spec fn items_prefix() -> Seq<char> {
    "/items/"@
}

/// `p` is `/items/{id}` for a non-empty `id` without `/`.
pub open spec fn is_item_path(p: Seq<char>) -> bool {
    &&& p.len() > items_prefix().len()
    &&& p.subrange(0, items_prefix().len() as int) == items_prefix()
    &&& forall|m: int| items_prefix().len() <= m < p.len() ==> #[trigger] p[m] != '/'
}

/// The segment that `/items/{id}` captures, still percent-encoded.
pub open spec fn item_id(p: Seq<char>) -> Seq<char> {
    p.subrange(items_prefix().len() as int, p.len() as int)
}

/// The route that answers `method` on `path`, if any.
pub open spec fn route_of(method: Method, path: Seq<char>) -> Option<Route> {
    if path == "/foo"@ {
        match method {
            Method::Get => Some(Route::GetFoo),
            Method::Put => Some(Route::PutFoo),
            Method::Patch => Some(Route::PatchFoo),
            Method::Post => Some(Route::PostFoo),
            Method::Delete => Some(Route::DeleteFoo),
            Method::Other => None,
        }
    } else if method != Method::Get {
        None
    } else if path == "/demo.html"@ {
        Some(Route::DemoHtml)
    } else if path == "/demo-status"@ {
        Some(Route::DemoStatus)
    } else if path == "/demo-uri"@ {
        Some(Route::DemoUri)
    } else if path == "/demo.png"@ {
        Some(Route::DemoPng)
    } else if path == "/items"@ {
        Some(Route::Items)
    } else if is_item_path(path) {
        Some(Route::ItemsId)
    } else {
        None
    }
}

/// Body of the response to `/items` with a query string that does not decode.
pub open spec fn bad_query_text() -> Seq<char> {
    "Failed to deserialize query string"@
}

/// Body of the response to `/items/{id}` when the decoded segment is not UTF-8.
pub open spec fn invalid_id_text() -> Seq<char> {
    "Invalid URL: Invalid UTF-8 in `id`"@
}

/// The response that `route` gives to the request target `target`, whose
/// query string decoded to `query` (`None`: it did not decode).
pub open spec fn route_response(
    route: Route,
    target: Seq<char>,
    query: Option<Seq<ParamView>>,
) -> ResponseView {
    match route {
        Route::DemoHtml => ResponseView {
            status: STATUS_OK,
            headers: Seq::empty(),
            body: BodyView::Html(DEMO_PAGE@),
        },
        Route::DemoStatus => text_response(STATUS_OK, demo_status_text()),
        Route::DemoUri => text_response(STATUS_OK, demo_uri_text(target)),
        Route::DemoPng => png_response_view(base64_decoded(DEMO_PNG_BASE64@)),
        Route::GetFoo => text_response(STATUS_OK, get_foo_text()),
        Route::PutFoo => text_response(STATUS_OK, put_foo_text()),
        Route::PatchFoo => text_response(STATUS_OK, patch_foo_text()),
        Route::PostFoo => text_response(STATUS_OK, post_foo_text()),
        Route::DeleteFoo => text_response(STATUS_OK, delete_foo_text()),
        Route::Items => match query {
            Some(ps) => text_response(STATUS_OK, items_query_text(ps)),
            None => text_response(STATUS_BAD_REQUEST, bad_query_text()),
        },
        Route::ItemsId => match percent_decoded_text(item_id(path_of(target))) {
            Some(id) => text_response(STATUS_OK, items_id_text(id)),
            None => text_response(STATUS_BAD_REQUEST, invalid_id_text()),
        },
    }
}

/// The response to `method` on the request target `target` (path and query
/// string, as the client sent them), whose query decoded to `query`.
pub open spec fn response_to(
    method: Method,
    target: Seq<char>,
    query: Option<Seq<ParamView>>,
) -> ResponseView {
    match route_of(method, path_of(target)) {
        Some(route) => route_response(route, target, query),
        None => text_response(STATUS_NOT_FOUND, no_route_text(target)),
    }
}

/// Two texts are equal.
fn same_text(a: &str, b: &str) -> (r: bool)
    ensures
        r == (a@ == b@),
{
    String::from_str(a) == String::from_str(b)
}

/// Finds where the path of a request target ends.
pub fn path_end(target: &str) -> (k: usize)
    ensures
        is_path_end(target@, k as int),
{
    let n = target.unicode_len();
    let mut k: usize = 0;
    while k < n && target.get_char(k) != '?'
        invariant
            k <= n,
            n == target@.len(),
            forall|m: int| 0 <= m < k ==> #[trigger] target@[m] != '?',
        decreases n - k,
    {
        k += 1;
    }
    k
}

/// The end of the path is unique, so it fixes the path.
pub proof fn lemma_path_end_unique(t: Seq<char>, k: int)
    requires
        is_path_end(t, k),
    ensures
        path_of(t) == t.subrange(0, k),
{
    let c = choose|j: int| is_path_end(t, j);
    assert(is_path_end(t, c));
    if c < k {
        assert(t[c] == '?');
    } else if c > k {
        assert(t[k] == '?');
    }
}

/// Every request target has a path.
pub proof fn lemma_path_end_exists(t: Seq<char>)
    ensures
        exists|k: int| is_path_end(t, k),
    decreases t.len(),
{
    if t.len() == 0 {
        assert(is_path_end(t, 0));
    } else {
        let u = t.drop_last();
        lemma_path_end_exists(u);
        let k = choose|k: int| is_path_end(u, k);
        assert(forall|m: int| 0 <= m < u.len() ==> u[m] == #[trigger] t[m]);
        if k < u.len() {
            assert(is_path_end(t, k));
        } else if t.last() == '?' {
            assert(is_path_end(t, k));
        } else {
            assert(is_path_end(t, t.len() as int));
        }
    }
}

/// Whether `path` is `/items/{id}` for a non-empty `id` without `/`.
fn is_item(path: &str) -> (r: bool)
    ensures
        r == is_item_path(path@),
{
    let n = path.unicode_len();
    proof {
        reveal_strlit("/items/");
    }
    if n <= 7 {
        return false;
    }
    if !same_text(path.substring_char(0, 7), "/items/") {
        return false;
    }
    let mut m: usize = 7;
    while m < n
        invariant
            7 <= m <= n,
            n == path@.len(),
            items_prefix().len() == 7,
            forall|t: int| 7 <= t < m ==> #[trigger] path@[t] != '/',
        decreases n - m,
    {
        if path.get_char(m) == '/' {
            assert(path@[m as int] == '/');
            return false;
        }
        m += 1;
    }
    true
}

/// Finds the route that answers `method` on `path`.
pub fn find_route(method: Method, path: &str) -> (r: Option<Route>)
    ensures
        r == route_of(method, path@),
{
    if same_text(path, "/foo") {
        match method {
            Method::Get => Some(Route::GetFoo),
            Method::Put => Some(Route::PutFoo),
            Method::Patch => Some(Route::PatchFoo),
            Method::Post => Some(Route::PostFoo),
            Method::Delete => Some(Route::DeleteFoo),
            Method::Other => None,
        }
    } else if method != Method::Get {
        None
    } else if same_text(path, "/demo.html") {
        Some(Route::DemoHtml)
    } else if same_text(path, "/demo-status") {
        Some(Route::DemoStatus)
    } else if same_text(path, "/demo-uri") {
        Some(Route::DemoUri)
    } else if same_text(path, "/demo.png") {
        Some(Route::DemoPng)
    } else if same_text(path, "/items") {
        Some(Route::Items)
    } else if is_item(path) {
        Some(Route::ItemsId)
    } else {
        None
    }
}

/// Answers `method` on the request target `target` (path and query string,
/// as the client sent them), whose query string decoded to `query` (`None`:
/// it did not decode). A request that no route matches gets 404.
pub fn dispatch(method: Method, target: &str, query: Option<Vec<(String, String)>>) -> (r: Response)
    ensures
        r@ == response_to(
            method,
            target@,
            match query {
                Some(ps) => Some(params_view(ps@)),
                None => None,
            },
        ),
{
    let k = path_end(target);
    proof {
        lemma_path_end_unique(target@, k as int);
    }
    let path = target.substring_char(0, k);
    match find_route(method, path) {
        None => fallback(target),
        Some(route) => match route {
            Route::DemoHtml => {
                let r = Response { status: STATUS_OK, headers: Vec::new(), body: Body::Html(demo_html()) };
                assert(r@.headers =~= Seq::<(Seq<char>, Seq<char>)>::empty());
                r
            },
            Route::DemoStatus => {
                let (status, body) = demo_status();
                text(status, body)
            },
            Route::DemoUri => text(STATUS_OK, demo_uri(target)),
            Route::DemoPng => get_demo_png(),
            Route::GetFoo => text(STATUS_OK, get_foo()),
            Route::PutFoo => text(STATUS_OK, put_foo()),
            Route::PatchFoo => text(STATUS_OK, patch_foo()),
            Route::PostFoo => text(STATUS_OK, post_foo()),
            Route::DeleteFoo => text(STATUS_OK, delete_foo()),
            Route::Items => match query {
                Some(ps) => text(STATUS_OK, get_items(&ps)),
                None => text(STATUS_BAD_REQUEST, String::from_str("Failed to deserialize query string")),
            },
            Route::ItemsId => {
                proof {
                    reveal_strlit("/items/");
                }
                let n = path.unicode_len();
                match percent_decode_text(path.substring_char(7, n)) {
                    Some(id) => text(STATUS_OK, get_items_id(id.as_str())),
                    None => text(STATUS_BAD_REQUEST, String::from_str("Invalid URL: Invalid UTF-8 in `id`")),
                }
            },
        },
    }
}

/// A target without `?` is all path.
pub proof fn lemma_target_without_query(t: Seq<char>)
    requires
        forall|m: int| 0 <= m < t.len() ==> #[trigger] t[m] != '?',
    ensures
        path_of(t) == t,
{
    assert(is_path_end(t, t.len() as int));
    lemma_path_end_unique(t, t.len() as int);
    assert(t.subrange(0, t.len() as int) =~= t);
}

/// A request whose method and path no route matches is answered with status
/// 404, and the body names the request target, so it holds the path.
pub proof fn unmatched_request_is_not_found(
    method: Method,
    target: Seq<char>,
    query: Option<Seq<ParamView>>,
)
    requires
        route_of(method, path_of(target)) is None,
    ensures
        response_to(method, target, query).status == STATUS_NOT_FOUND,
        response_to(method, target, query).body == BodyView::Text(no_route_text(target)),
        no_route_text(target).subrange(9, 9 + path_of(target).len() as int) == path_of(target),
{
    lemma_path_end_exists(target);
    let k = choose|k: int| is_path_end(target, k);
    lemma_path_end_unique(target, k);
    reveal_strlit("No route ");
    assert(no_route_text(target).subrange(9, 9 + k) =~= target.subrange(0, k));
}

/// Each of GET, PUT, PATCH, POST and DELETE on `/foo` is answered with status
/// 200 and a body of its own, whatever the query string.
pub proof fn foo_answers_each_method(target: Seq<char>, query: Option<Seq<ParamView>>)
    requires
        path_of(target) == "/foo"@,
    ensures
        response_to(Method::Get, target, query) == text_response(STATUS_OK, "GET foo"@),
        response_to(Method::Put, target, query) == text_response(STATUS_OK, "PUT foo"@),
        response_to(Method::Patch, target, query) == text_response(STATUS_OK, "PATCH foo"@),
        response_to(Method::Post, target, query) == text_response(STATUS_OK, "POST foo"@),
        response_to(Method::Delete, target, query) == text_response(STATUS_OK, "DELETE foo"@),
        response_to(Method::Other, target, query) == text_response(
            STATUS_NOT_FOUND,
            no_route_text(target),
        ),
{
}

/// A request that a route matches is answered with status 200, never 404,
/// when its query string decodes and, on `/items/{id}`, the decoded segment
/// is UTF-8.
pub proof fn matched_request_is_ok(method: Method, target: Seq<char>, query: Option<Seq<ParamView>>)
    requires
        route_of(method, path_of(target)) is Some,
        query is Some,
        route_of(method, path_of(target)) == Some(Route::ItemsId) ==> percent_decoded_text(
            item_id(path_of(target)),
        ) is Some,
    ensures
        response_to(method, target, query).status == STATUS_OK,
{
}

} // verus!
