use vstd::prelude::*;

use crate::text::{ends_with, str_ends_with};

verus! {

/// The media type served for a static asset path, chosen by its extension.
pub open spec fn content_type_of(path: Seq<char>) -> Seq<char> {
    if ends_with(path, ".html"@) {
        "text/html; charset=utf-8"@
    } else if ends_with(path, ".css"@) {
        "text/css; charset=utf-8"@
    } else if ends_with(path, ".js"@) {
        "application/javascript; charset=utf-8"@
    } else if ends_with(path, ".svg"@) {
        "image/svg+xml"@
    } else if ends_with(path, ".woff2"@) {
        "font/woff2"@
    } else if ends_with(path, ".woff"@) {
        "font/woff"@
    } else if ends_with(path, ".png"@) {
        "image/png"@
    } else if ends_with(path, ".jpg"@) || ends_with(path, ".jpeg"@) {
        "image/jpeg"@
    } else {
        "application/octet-stream"@
    }
}

/// Media type of a static asset, by the extension of its path.
pub fn get_content_type(path: &str) -> (r: &'static str)
    ensures
        r@ == content_type_of(path@),
{
    if str_ends_with(path, ".html") {
        "text/html; charset=utf-8"
    } else if str_ends_with(path, ".css") {
        "text/css; charset=utf-8"
    } else if str_ends_with(path, ".js") {
        "application/javascript; charset=utf-8"
    } else if str_ends_with(path, ".svg") {
        "image/svg+xml"
    } else if str_ends_with(path, ".woff2") {
        "font/woff2"
    } else if str_ends_with(path, ".woff") {
        "font/woff"
    } else if str_ends_with(path, ".png") {
        "image/png"
    } else if str_ends_with(path, ".jpg") || str_ends_with(path, ".jpeg") {
        "image/jpeg"
    } else {
        "application/octet-stream"
    }
}

} // verus!
