//! The asset handler: the full per-request decision pipeline. It routes
//! the request, resolves the class root for the active mode, sanitizes the
//! capture, and hands back either the exact file path to open (with its
//! content type) or a uniform rejection. Opening and streaming the file is
//! the caller's I/O; the caller reports the open's outcome back through
//! [`status_for_serve_error`] and [`success_status`].

use vstd::prelude::*;
use vstd::string::StringExecFns;
use crate::config::RuntimeMode;
use crate::error::ServeError;
use crate::paths::{sanitize, spec_sanitize_ok, has_dotdot_segment, lemma_sanitized_join_contained};
use crate::resolve::{resolve, spec_resolve};
use crate::routes::{route, AssetClass, RouteMatch, SpecRoute, spec_route};
use crate::strutil::{spec_join, spec_normalize, join_path, str_ends_with};

verus! {

/// The two base directories captured once at startup, and the mode that
/// selects between them. Shared read-only by every connection handler;
/// requests never re-derive them.
pub struct Roots {
    pub mode: RuntimeMode,
    pub cwd: String,
    pub exe_dir: String,
}

impl Roots {
    /// Captures the startup state.
    pub fn new(mode: RuntimeMode, cwd: String, exe_dir: String) -> (r: Roots)
        ensures
            r.mode == mode,
            r.cwd@ == cwd@,
            r.exe_dir@ == exe_dir@,
    {
        Roots { mode, cwd, exe_dir }
    }

    /// The resolved root for one class under this startup state.
    pub fn root_for(&self, class: AssetClass) -> (r: String)
        ensures
            r@ == spec_resolve(class, self.mode, self.cwd@, self.exe_dir@),
    {
        resolve(class, self.mode, self.cwd.as_str(), self.exe_dir.as_str())
    }
}

/// What the handler decides for one request.
pub enum RequestDecision {
    /// Open the file at `file_path` and stream it with `content_type`.
    Serve { file_path: String, content_type: String },
    /// Respond not-found: a route miss or a rejected capture, deliberately
    /// indistinguishable to the client.
    Reject,
}

/// Mathematical mirror of `RequestDecision`.
pub enum SpecDecision {
    SpecServe { file_path: Seq<char>, content_type: Seq<char> },
    SpecReject,
}

/// The content type served for a class, for images told apart by the
/// capture's extension — never by sniffing file contents.
pub open spec fn spec_content_type(class: AssetClass, capture: Seq<char>) -> Seq<char> {
    match class {
        AssetClass::Image => if ".jpg"@.is_suffix_of(capture) {
            "image/jpeg"@
        } else if ".png"@.is_suffix_of(capture) {
            "image/png"@
        } else if ".webp"@.is_suffix_of(capture) {
            "image/webp"@
        } else {
            "image/gif"@
        },
        AssetClass::Stylesheet => "text/css"@,
        AssetClass::Script => "text/javascript"@,
        AssetClass::Font => "font/ttf"@,
        AssetClass::Index => "text/html"@,
    }
}

/// The content type for one matched class and capture.
pub fn content_type_for(class: AssetClass, capture: &str) -> (r: &'static str)
    ensures
        r@ == spec_content_type(class, capture@),
{
    match class {
        AssetClass::Image => {
            if str_ends_with(capture, ".jpg") {
                "image/jpeg"
            } else if str_ends_with(capture, ".png") {
                "image/png"
            } else if str_ends_with(capture, ".webp") {
                "image/webp"
            } else {
                "image/gif"
            }
        },
        AssetClass::Stylesheet => "text/css",
        AssetClass::Script => "text/javascript",
        AssetClass::Font => "font/ttf",
        AssetClass::Index => "text/html",
    }
}

/// The whole pipeline as one function of the request and the startup
/// state: a route miss or a rejected capture is a rejection; the index
/// route serves the fixed index file; a matched file route serves the
/// class root joined with the normalized capture.
pub open spec fn spec_decision(
    method: Seq<char>,
    path: Seq<char>,
    mode: RuntimeMode,
    cwd: Seq<char>,
    exe_dir: Seq<char>,
) -> SpecDecision {
    match spec_route(method, path) {
        SpecRoute::SpecMiss => SpecDecision::SpecReject,
        SpecRoute::SpecIndex => SpecDecision::SpecServe {
            file_path: spec_resolve(AssetClass::Index, mode, cwd, exe_dir),
            content_type: "text/html"@,
        },
        SpecRoute::SpecAsset { class, capture } => if spec_sanitize_ok(capture) {
            SpecDecision::SpecServe {
                file_path: spec_join(
                    spec_resolve(class, mode, cwd, exe_dir),
                    spec_normalize(capture),
                ),
                content_type: spec_content_type(class, capture),
            }
        } else {
            SpecDecision::SpecReject
        },
    }
}

/// Decides one request. The returned file path is always the resolved
/// class root joined with a sanitized capture (or the fixed index file):
/// no path reaches the caller without passing the resolver and then the
/// sanitizer.
pub fn handle_request(method: &str, path: &str, roots: &Roots) -> (d: RequestDecision)
    ensures
        match spec_decision(method@, path@, roots.mode, roots.cwd@, roots.exe_dir@) {
            SpecDecision::SpecServe { file_path, content_type } => (d
                matches RequestDecision::Serve {
                file_path: f,
                content_type: c,
            } && f@ == file_path && c@ == content_type),
            SpecDecision::SpecReject => d matches RequestDecision::Reject,
        },
{
    match route(method, path) {
        RouteMatch::NoMatch => RequestDecision::Reject,
        RouteMatch::IndexPage => {
            let file_path = roots.root_for(AssetClass::Index);
            RequestDecision::Serve { file_path, content_type: "text/html".to_owned() }
        },
        RouteMatch::Asset { class, capture } => {
            match sanitize(capture.as_str()) {
                Err(_) => RequestDecision::Reject,
                Ok(p) => {
                    let root = roots.root_for(class);
                    let file_path = join_path(root.as_str(), p.as_str());
                    let content_type = content_type_for(class, capture.as_str()).to_owned();
                    RequestDecision::Serve { file_path, content_type }
                },
            }
        },
    }
}

/// The status served when a valid path failed to open: a missing file is
/// 404, any other I/O failure is 500.
pub fn status_for_serve_error(e: &ServeError) -> (s: u16)
    ensures
        e == ServeError::NotFound ==> s == 404,
        e == ServeError::Denied ==> s == 500,
{
    match e {
        ServeError::NotFound => 404,
        ServeError::Denied => 500,
    }
}

/// The status of a successful serve.
pub fn success_status() -> (s: u16)
    ensures
        s == 200,
{
    200
}

/// The status of a rejection: a route miss and an invalid capture map to
/// the same not-found response, so neither leaks path structure.
pub fn reject_status() -> (s: u16)
    ensures
        s == 404,
{
    404
}

/// No served path skips the resolver and the sanitizer: whenever the
/// pipeline decides to serve a file-route request, the served path is the
/// class's resolved root followed by a single separator and a normalized,
/// traversal-free remainder — it stays lexically within that root. The
/// index route serves exactly its one fixed file.
pub proof fn lemma_served_path_within_root(
    method: Seq<char>,
    path: Seq<char>,
    mode: RuntimeMode,
    cwd: Seq<char>,
    exe_dir: Seq<char>,
)
    ensures
        match (spec_route(method, path), spec_decision(method, path, mode, cwd, exe_dir)) {
            (
                SpecRoute::SpecAsset { class, capture },
                SpecDecision::SpecServe { file_path, .. },
            ) => {
                let root = spec_resolve(class, mode, cwd, exe_dir);
                &&& root.is_prefix_of(file_path)
                &&& file_path == root + "/"@ + spec_normalize(capture)
                &&& !has_dotdot_segment(spec_normalize(capture))
            },
            (SpecRoute::SpecIndex, SpecDecision::SpecServe { file_path, .. }) =>
                file_path == spec_resolve(AssetClass::Index, mode, cwd, exe_dir),
            (SpecRoute::SpecMiss, d) => d == SpecDecision::SpecReject,
            _ => true,
        },
{
    if let SpecRoute::SpecAsset { class, capture } = spec_route(method, path) {
        if spec_sanitize_ok(capture) {
            lemma_sanitized_join_contained(spec_resolve(class, mode, cwd, exe_dir), capture);
        }
    }
}

/// The index document is one fixed file: `GET /` and `GET /index.html`
/// decide identically, whatever the method, mode and base directories.
pub proof fn lemma_index_alias(
    method: Seq<char>,
    mode: RuntimeMode,
    cwd: Seq<char>,
    exe_dir: Seq<char>,
)
    ensures
        spec_decision(method, "/"@, mode, cwd, exe_dir) == spec_decision(
            method,
            "/index.html"@,
            mode,
            cwd,
            exe_dir,
        ),
{
    reveal_strlit("/");
    reveal_strlit("/index.html");
    reveal_strlit("/img/");
    reveal_strlit("/css/");
    reveal_strlit("/scripts/");
    reveal_strlit("/fonts/");
    assert(!"/img/"@.is_prefix_of("/"@));
    assert(!"/css/"@.is_prefix_of("/"@));
    assert(!"/scripts/"@.is_prefix_of("/"@));
    assert(!"/fonts/"@.is_prefix_of("/"@));
    assert("/img/"@[2] != "/index.html"@[2]);
    assert(!"/img/"@.is_prefix_of("/index.html"@));
    assert("/css/"@[1] != "/index.html"@[1]);
    assert(!"/css/"@.is_prefix_of("/index.html"@));
    assert("/scripts/"@[1] != "/index.html"@[1]);
    assert(!"/scripts/"@.is_prefix_of("/index.html"@));
    assert("/fonts/"@[1] != "/index.html"@[1]);
    assert(!"/fonts/"@.is_prefix_of("/index.html"@));
}

} // verus!
