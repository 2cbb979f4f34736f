//! What the HTTP surface decides without touching a request.

use vstd::prelude::*;

verus! {

/// The content type under which a static file with this extension is
/// served, if the extension is one of those that the application ships.
pub open spec fn content_type_of(ext: Seq<char>) -> Option<Seq<char>> {
    if ext == "css"@ {
        Some("text/css"@)
    } else if ext == "html"@ {
        Some("text/html; charset=utf-8"@)
    } else if ext == "js"@ {
        Some("application/javascript"@)
    } else if ext == "wasm"@ {
        Some("application/wasm"@)
    } else {
        None
    }
}

/// Whether two strings hold the same text.
fn same_text(a: &str, b: &str) -> (same: bool)
    ensures
        same == (a@ == b@),
{
    let left = a.to_owned();
    let right = b.to_owned();
    left == right
}

/// Picks the content type for the extension of a static file.
pub fn content_type(ext: &str) -> (value: Option<&'static str>)
    ensures
        match value {
            Some(text) => content_type_of(ext@) == Some(text@),
            None => content_type_of(ext@) is None,
        },
{
    if same_text(ext, "css") {
        Some("text/css")
    } else if same_text(ext, "html") {
        Some("text/html; charset=utf-8")
    } else if same_text(ext, "js") {
        Some("application/javascript")
    } else if same_text(ext, "wasm") {
        Some("application/wasm")
    } else {
        None
    }
}

} // verus!
