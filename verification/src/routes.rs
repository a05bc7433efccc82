//! The router: maps an HTTP method and URL path to an asset class and a
//! raw filename capture, against a fixed pattern table.

use vstd::prelude::*;
use crate::strutil::{str_eq, str_ends_with, strip_prefix_checked};

verus! {

/// The fixed categories of static file the server hosts.
#[derive(Clone, Copy, PartialEq, Eq, Structural, Debug)]
pub enum AssetClass {
    Image,
    Stylesheet,
    Script,
    Font,
    Index,
}

/// The outcome of routing one request.
pub enum RouteMatch {
    /// A file route matched; `capture` is the raw, untrusted filename.
    Asset { class: AssetClass, capture: String },
    /// The fixed index document was requested; there is no capture.
    IndexPage,
    /// No pattern matched, or the method was not GET.
    NoMatch,
}

/// Mathematical mirror of `RouteMatch`, with the capture as a sequence.
pub enum SpecRoute {
    SpecAsset { class: AssetClass, capture: Seq<char> },
    SpecIndex,
    SpecMiss,
}

/// Whether a captured image filename carries one of the accepted extensions.
pub open spec fn spec_image_ext(s: Seq<char>) -> bool {
    ||| ".jpg"@.is_suffix_of(s)
    ||| ".png"@.is_suffix_of(s)
    ||| ".webp"@.is_suffix_of(s)
    ||| ".gif"@.is_suffix_of(s)
}

/// The route table, checked in its fixed order. Only GET is accepted;
/// a file route matches when its path prefix and filename extension both
/// fit, and the capture is everything after the prefix.
pub open spec fn spec_route(method: Seq<char>, path: Seq<char>) -> SpecRoute {
    if method != "GET"@ {
        SpecRoute::SpecMiss
    } else if "/img/"@.is_prefix_of(path) && spec_image_ext(path.skip("/img/"@.len() as int)) {
        SpecRoute::SpecAsset { class: AssetClass::Image, capture: path.skip("/img/"@.len() as int) }
    } else if "/css/"@.is_prefix_of(path) && ".css"@.is_suffix_of(path.skip("/css/"@.len() as int)) {
        SpecRoute::SpecAsset { class: AssetClass::Stylesheet, capture: path.skip("/css/"@.len() as int) }
    } else if "/scripts/"@.is_prefix_of(path) && ".js"@.is_suffix_of(path.skip("/scripts/"@.len() as int)) {
        SpecRoute::SpecAsset { class: AssetClass::Script, capture: path.skip("/scripts/"@.len() as int) }
    } else if "/fonts/"@.is_prefix_of(path) && ".ttf"@.is_suffix_of(path.skip("/fonts/"@.len() as int)) {
        SpecRoute::SpecAsset { class: AssetClass::Font, capture: path.skip("/fonts/"@.len() as int) }
    } else if path == "/index.html"@ || path == "/"@ {
        SpecRoute::SpecIndex
    } else {
        SpecRoute::SpecMiss
    }
}

/// Matches one request against the route table.
pub fn route(method: &str, path: &str) -> (r: RouteMatch)
    ensures
        match spec_route(method@, path@) {
            SpecRoute::SpecAsset { class, capture } => (r matches RouteMatch::Asset {
                class: c,
                capture: cap,
            } && c == class && cap@ == capture),
            SpecRoute::SpecIndex => r matches RouteMatch::IndexPage,
            SpecRoute::SpecMiss => r matches RouteMatch::NoMatch,
        },
{
    if !str_eq(method, "GET") {
        return RouteMatch::NoMatch;
    }
    if let Some(cap) = strip_prefix_checked(path, "/img/") {
        if str_ends_with(cap, ".jpg") || str_ends_with(cap, ".png") || str_ends_with(cap, ".webp")
            || str_ends_with(cap, ".gif") {
            return RouteMatch::Asset { class: AssetClass::Image, capture: cap.to_owned() };
        }
    }
    if let Some(cap) = strip_prefix_checked(path, "/css/") {
        if str_ends_with(cap, ".css") {
            return RouteMatch::Asset { class: AssetClass::Stylesheet, capture: cap.to_owned() };
        }
    }
    if let Some(cap) = strip_prefix_checked(path, "/scripts/") {
        if str_ends_with(cap, ".js") {
            return RouteMatch::Asset { class: AssetClass::Script, capture: cap.to_owned() };
        }
    }
    if let Some(cap) = strip_prefix_checked(path, "/fonts/") {
        if str_ends_with(cap, ".ttf") {
            return RouteMatch::Asset { class: AssetClass::Font, capture: cap.to_owned() };
        }
    }
    if str_eq(path, "/index.html") || str_eq(path, "/") {
        return RouteMatch::IndexPage;
    }
    RouteMatch::NoMatch
}

} // verus!
