//! Content types of the static files the web server hands out.
use crate::text::str_eq;
use vstd::prelude::*;

verus! {

/// The content type of a file extension.
pub open spec fn content_type_of(ext: Seq<char>) -> Seq<char> {
    if ext == "html"@ {
        "text/html; charset=utf-8"@
    } else if ext == "css"@ {
        "text/css"@
    } else if ext == "js"@ {
        "application/javascript"@
    } else if ext == "json"@ {
        "application/json"@
    } else if ext == "png"@ {
        "image/png"@
    } else if ext == "ico"@ {
        "image/x-icon"@
    } else if ext == "woff2"@ {
        "font/woff2"@
    } else {
        "application/octet-stream"@
    }
}

/// The content type a file is served with, by its extension.
pub fn codec_for_ext(ext: &str) -> (r: &'static str)
    ensures
        r@ == content_type_of(ext@),
{
    if str_eq(ext, "html") {
        "text/html; charset=utf-8"
    } else if str_eq(ext, "css") {
        "text/css"
    } else if str_eq(ext, "js") {
        "application/javascript"
    } else if str_eq(ext, "json") {
        "application/json"
    } else if str_eq(ext, "png") {
        "image/png"
    } else if str_eq(ext, "ico") {
        "image/x-icon"
    } else if str_eq(ext, "woff2") {
        "font/woff2"
    } else {
        "application/octet-stream"
    }
}

/// Whether a missing file of this extension is answered with a plain "Not
/// found" rather than the 404 page (scripts, styles and fonts).
pub fn is_plain_not_found(ext: &str) -> (r: bool)
    ensures
        r == (ext@ == "js"@ || ext@ == "css"@ || ext@ == "woff2"@),
{
    str_eq(ext, "js") || str_eq(ext, "css") || str_eq(ext, "woff2")
}

} // verus!
