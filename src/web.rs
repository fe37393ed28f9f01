//! HTTP Control Surface: which handler a request reaches, and the replies
//! that do not depend on the scan list.
use vstd::prelude::*;
use vstd::string::*;

verus! {

/// The handler a request reaches.
#[derive(Debug, Clone)]
pub enum Route {
    /// `GET /api/backend_kind`.
    BackendKind,
    /// `GET /api/scan`: the cached scan list.
    Scan,
    /// `POST /api/connect`: acknowledge, then commit in the background.
    Connect,
    /// `GET /generate_204`: the captive-portal probe.
    CaptivePortalProbe,
    /// Any other `GET`: the UI asset under this path.
    Asset(String),
    /// A known path with the wrong method, or a non-`GET` elsewhere.
    MethodNotAllowed,
}

/// A request's route, as mathematical values.
pub enum RouteView {
    BackendKind,
    Scan,
    Connect,
    CaptivePortalProbe,
    Asset(Seq<char>),
    MethodNotAllowed,
}

impl View for Route {
    type V = RouteView;

    open spec fn view(&self) -> RouteView {
        match self {
            Route::BackendKind => RouteView::BackendKind,
            Route::Scan => RouteView::Scan,
            Route::Connect => RouteView::Connect,
            Route::CaptivePortalProbe => RouteView::CaptivePortalProbe,
            Route::Asset(p) => RouteView::Asset(p@),
            Route::MethodNotAllowed => RouteView::MethodNotAllowed,
        }
    }
}

/// `s` without the '/' characters at its start.
pub open spec fn trim_leading_slashes(s: Seq<char>) -> Seq<char>
    decreases s.len(),
{
    if s.len() > 0 && s[0] == '/' {
        trim_leading_slashes(s.skip(1))
    } else {
        s
    }
}

/// The asset that a request path names: the path without its leading
/// slashes, or `index.html` when nothing is left.
pub open spec fn asset_path_spec(path: Seq<char>) -> Seq<char> {
    if trim_leading_slashes(path).len() == 0 {
        "index.html"@
    } else {
        trim_leading_slashes(path)
    }
}

pub fn asset_path(path: &str) -> (r: String)
    ensures
        r@ == asset_path_spec(path@),
{
    let n = path.unicode_len();
    let mut k: usize = 0;
    assert(path@.skip(0) =~= path@);
    while k < n && path.get_char(k) == '/'
        invariant
            n == path@.len(),
            k <= n,
            trim_leading_slashes(path@.skip(k as int)) == trim_leading_slashes(path@),
        decreases n - k,
    {
        assert(path@.skip(k as int).skip(1) =~= path@.skip(k + 1));
        k += 1;
    }
    let rest = path.substring_char(k, n);
    assert(rest@ =~= path@.skip(k as int));
    if k == n {
        String::from_str("index.html")
    } else {
        String::from_str(rest)
    }
}

pub open spec fn is_get(method: Seq<char>) -> bool {
    method == "GET"@ || method == "HEAD"@
}

/// The route of a request with this method and path.
pub open spec fn route_spec(method: Seq<char>, path: Seq<char>) -> RouteView {
    if path == "/api/scan"@ {
        if is_get(method) {
            RouteView::Scan
        } else {
            RouteView::MethodNotAllowed
        }
    } else if path == "/api/connect"@ {
        if method == "POST"@ {
            RouteView::Connect
        } else {
            RouteView::MethodNotAllowed
        }
    } else if path == "/api/backend_kind"@ {
        if is_get(method) {
            RouteView::BackendKind
        } else {
            RouteView::MethodNotAllowed
        }
    } else if path == "/generate_204"@ {
        if is_get(method) {
            RouteView::CaptivePortalProbe
        } else {
            RouteView::MethodNotAllowed
        }
    } else if is_get(method) {
        RouteView::Asset(asset_path_spec(path))
    } else {
        RouteView::MethodNotAllowed
    }
}

fn same(a: &str, b: &str) -> (r: bool)
    ensures
        r == (a@ == b@),
{
    String::from_str(a) == String::from_str(b)
}

/// Picks the handler for a request.
pub fn route(method: &str, path: &str) -> (r: Route)
    ensures
        r@ == route_spec(method@, path@),
{
    let get = same(method, "GET") || same(method, "HEAD");
    if same(path, "/api/scan") {
        if get {
            Route::Scan
        } else {
            Route::MethodNotAllowed
        }
    } else if same(path, "/api/connect") {
        if same(method, "POST") {
            Route::Connect
        } else {
            Route::MethodNotAllowed
        }
    } else if same(path, "/api/backend_kind") {
        if get {
            Route::BackendKind
        } else {
            Route::MethodNotAllowed
        }
    } else if same(path, "/generate_204") {
        if get {
            Route::CaptivePortalProbe
        } else {
            Route::MethodNotAllowed
        }
    } else if get {
        Route::Asset(asset_path(path))
    } else {
        Route::MethodNotAllowed
    }
}

/// A complete HTTP reply.
#[derive(Debug, Clone)]
pub struct HttpReply {
    pub status: u16,
    pub content_type: String,
    pub body: Vec<u8>,
}

fn text_body(s: &str) -> (r: Vec<u8>)
    ensures
        r@ == s.spec_bytes(),
{
    let b = s.as_bytes();
    let mut v: Vec<u8> = Vec::new();
    let mut k: usize = 0;
    while k < b.len()
        invariant
            k <= b@.len(),
            v@ == b@.take(k as int),
        decreases b.len() - k,
    {
        v.push(b[k]);
        k += 1;
        assert(v@ =~= b@.take(k as int));
    }
    assert(b@.take(k as int) =~= b@);
    v
}

/// `{"kind":"tdm"}`: the scan list is a snapshot taken at start-up.
pub fn backend_kind_reply() -> (r: HttpReply)
    ensures
        r.status == 200,
        r.content_type@ == "application/json"@,
        r.body@ == "{\"kind\":\"tdm\"}".spec_bytes(),
{
    HttpReply {
        status: 200,
        content_type: String::from_str("application/json"),
        body: text_body("{\"kind\":\"tdm\"}"),
    }
}

/// The immediate answer to `POST /api/connect`.
pub fn connect_ack_reply() -> (r: HttpReply)
    ensures
        r.status == 200,
        r.content_type@ == "application/json"@,
        r.body@ == "{\"status\":\"success\",\"message\":\"Connection request received. Device is now switching networks.\"}".spec_bytes(),
{
    HttpReply {
        status: 200,
        content_type: String::from_str("application/json"),
        body: text_body(
            "{\"status\":\"success\",\"message\":\"Connection request received. Device is now switching networks.\"}",
        ),
    }
}

/// The answer to a captive-portal probe: 204 with an empty body.
pub fn captive_probe_reply() -> (r: HttpReply)
    ensures
        r.status == 204,
        r.body@.len() == 0,
{
    HttpReply {
        status: 204,
        content_type: String::from_str("text/plain; charset=utf-8"),
        body: Vec::new(),
    }
}

/// 404 for a missing asset.
pub fn not_found_reply() -> (r: HttpReply)
    ensures
        r.status == 404,
        r.body@ == "Not Found".spec_bytes(),
{
    HttpReply {
        status: 404,
        content_type: String::from_str("text/plain; charset=utf-8"),
        body: text_body("Not Found"),
    }
}

/// 405 for a method a route does not take.
pub fn method_not_allowed_reply() -> (r: HttpReply)
    ensures
        r.status == 405,
        r.body@.len() == 0,
{
    HttpReply { status: 405, content_type: String::from_str("text/plain; charset=utf-8"), body: Vec::new() }
}

/// What `mime_guess` makes of a path's extension.
pub uninterp spec fn mime_of(path: Seq<char>) -> Seq<char>;

/// Relies on `mime_guess::from_path(..).first_or_octet_stream()`: the media
/// type depends on the path alone.
#[verifier::external_body]
fn media_type(path: &str) -> (r: String)
    ensures
        r@ == mime_of(path@),
{
    mime_guess::from_path(path).first_or_octet_stream().to_string()
}

/// The reply for an asset lookup: its bytes with the media type of its
/// extension, or 404 when the provider has nothing under that path.
pub fn asset_reply(path: &str, data: Option<Vec<u8>>) -> (r: HttpReply)
    ensures
        match data {
            Some(d) => r.status == 200 && r.body@ == d@ && r.content_type@ == mime_of(path@),
            None => r.status == 404 && r.body@ == "Not Found".spec_bytes(),
        },
{
    match data {
        Some(d) => HttpReply { status: 200, content_type: media_type(path), body: d },
        None => not_found_reply(),
    }
}

} // verus!
