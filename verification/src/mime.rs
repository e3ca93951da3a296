//! The content type under which a file is previewed.
use vstd::prelude::*;

use crate::text::{lowercase, to_lowercase};

verus! {

/// The extension of the last component of a path, as
/// `Path::extension` gives it (then read as UTF-8).
pub uninterp spec fn path_extension(path: Seq<char>) -> Option<Seq<char>>;

/// `Path::extension` from std, on a path given as text. How std splits a path
/// into components is not written out: the extension is named as a function
/// of the path.
#[verifier::external_body]
pub(crate) fn extension_of(path: &str) -> (ext: Option<String>)
    ensures
        match ext {
            Some(e) => path_extension(path@) == Some(e@),
            None => path_extension(path@) == None::<Seq<char>>,
        },
{
    match std::path::Path::new(path).extension() {
        Some(e) => e.to_str().map(str::to_string),
        None => None,
    }
}

/// The content type for a lowercase file extension; unknown extensions are
/// served as bytes.
pub open spec fn mime_for_extension(ext: Seq<char>) -> Seq<char> {
    if ext == "png"@ {
        "image/png"@
    } else if ext == "jpg"@ || ext == "jpeg"@ {
        "image/jpeg"@
    } else if ext == "gif"@ {
        "image/gif"@
    } else if ext == "webp"@ {
        "image/webp"@
    } else if ext == "svg"@ {
        "image/svg+xml"@
    } else if ext == "mp4"@ {
        "video/mp4"@
    } else if ext == "webm"@ {
        "video/webm"@
    } else if ext == "ogg"@ {
        "video/ogg"@
    } else if ext == "mp3"@ {
        "audio/mpeg"@
    } else if ext == "wav"@ {
        "audio/wav"@
    } else if ext == "pdf"@ {
        "application/pdf"@
    } else if ext == "txt"@ {
        "text/plain"@
    } else if ext == "html"@ {
        "text/html"@
    } else if ext == "css"@ {
        "text/css"@
    } else if ext == "js"@ {
        "application/javascript"@
    } else if ext == "json"@ {
        "application/json"@
    } else {
        "application/octet-stream"@
    }
}

/// Whether two strings hold the same characters.
pub fn same_text(a: &str, b: &str) -> (r: bool)
    ensures
        r == (a@ == b@),
{
    a.to_string() == b.to_string()
}

/// The content type for a lowercase file extension.
pub fn mime_type_for_extension(ext: &str) -> (m: &'static str)
    ensures
        m@ == mime_for_extension(ext@),
{
    if same_text(ext, "png") {
        "image/png"
    } else if same_text(ext, "jpg") || same_text(ext, "jpeg") {
        "image/jpeg"
    } else if same_text(ext, "gif") {
        "image/gif"
    } else if same_text(ext, "webp") {
        "image/webp"
    } else if same_text(ext, "svg") {
        "image/svg+xml"
    } else if same_text(ext, "mp4") {
        "video/mp4"
    } else if same_text(ext, "webm") {
        "video/webm"
    } else if same_text(ext, "ogg") {
        "video/ogg"
    } else if same_text(ext, "mp3") {
        "audio/mpeg"
    } else if same_text(ext, "wav") {
        "audio/wav"
    } else if same_text(ext, "pdf") {
        "application/pdf"
    } else if same_text(ext, "txt") {
        "text/plain"
    } else if same_text(ext, "html") {
        "text/html"
    } else if same_text(ext, "css") {
        "text/css"
    } else if same_text(ext, "js") {
        "application/javascript"
    } else if same_text(ext, "json") {
        "application/json"
    } else {
        "application/octet-stream"
    }
}

/// The lowercased extension of a path, empty when it has none.
pub open spec fn lowered_extension(path: Seq<char>) -> Seq<char> {
    lowercase(
        match path_extension(path) {
            Some(e) => e,
            None => seq![],
        },
    )
}

/// The content type of a file, from the extension of its path compared
/// without regard to case.
pub fn get_mime_type(file_path: &str) -> (m: &'static str)
    ensures
        m@ == mime_for_extension(lowered_extension(file_path@)),
{
    let ext = match extension_of(file_path) {
        Some(e) => e,
        None => String::new(),
    };
    let lower = to_lowercase(ext.as_str());
    mime_type_for_extension(lower.as_str())
}

} // verus!
