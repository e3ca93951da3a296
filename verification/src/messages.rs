//! The JSON messages pushed to connected browsers over the WebSocket.
//!
//! Each message is a JSON object written as `serde_json` writes a `Value`
//! built with `json!`: keys in sorted order (its default map is ordered),
//! no spaces, strings escaped as in [`json_quoted`].
use vstd::prelude::*;

use crate::portal::{json_quoted, json_string, opt_view};
use crate::requests::{file_name_of, path_file_name};
use crate::text::{decimal, u64_to_decimal};

verus! {

/// A download of `filename`, `size` bytes long, has started.
pub open spec fn download_start_json(filename: Seq<char>, size: nat) -> Seq<char> {
    "{\"filename\":"@ + json_quoted(filename) + ",\"totalSize\":"@ + decimal(size)
        + ",\"type\":\"download-start\"}"@
}

/// A download of `filename` has completed.
pub open spec fn download_complete_json(filename: Seq<char>) -> Seq<char> {
    "{\"filename\":"@ + json_quoted(filename) + ",\"type\":\"download-complete\"}"@
}

/// An upload of `filename` has started (its size is not known yet).
pub open spec fn upload_start_json(filename: Seq<char>) -> Seq<char> {
    "{\"filename\":"@ + json_quoted(filename) + ",\"totalSize\":0,\"type\":\"upload-start\"}"@
}

/// An upload whose last file is `filename` has completed.
pub open spec fn upload_complete_json(filename: Seq<char>) -> Seq<char> {
    "{\"filename\":"@ + json_quoted(filename) + ",\"type\":\"upload-complete\"}"@
}

/// The share has stopped: browsers log out.
pub open spec fn logout_json() -> Seq<char> {
    "{\"type\":\"logout\"}"@
}

/// The desktop app switched to `theme`.
pub open spec fn theme_changed_json(theme: Seq<char>) -> Seq<char> {
    "{\"theme\":"@ + json_quoted(theme) + ",\"type\":\"theme-changed\"}"@
}

/// Something changed in the shared directory.
pub open spec fn directory_changed_json(filename: Seq<char>, event_type: Seq<char>) -> Seq<char> {
    "{\"eventType\":"@ + json_quoted(event_type) + ",\"filename\":"@ + json_quoted(filename)
        + ",\"type\":\"directory-changed\"}"@
}

/// Builds the message that a download has started.
pub fn download_start_message(filename: &str, size: u64) -> (m: String)
    ensures
        m@ == download_start_json(filename@, size as nat),
{
    let mut m = "{\"filename\":".to_string();
    m.append(json_string(filename).as_str());
    m.append(",\"totalSize\":");
    m.append(u64_to_decimal(size).as_str());
    m.append(",\"type\":\"download-start\"}");
    m
}

/// Builds the message that a download has completed.
pub fn download_complete_message(filename: &str) -> (m: String)
    ensures
        m@ == download_complete_json(filename@),
{
    let mut m = "{\"filename\":".to_string();
    m.append(json_string(filename).as_str());
    m.append(",\"type\":\"download-complete\"}");
    m
}

/// Builds the message that an upload has started.
pub fn upload_start_message(filename: &str) -> (m: String)
    ensures
        m@ == upload_start_json(filename@),
{
    let mut m = "{\"filename\":".to_string();
    m.append(json_string(filename).as_str());
    m.append(",\"totalSize\":0,\"type\":\"upload-start\"}");
    m
}

/// Builds the message that an upload has completed.
pub fn upload_complete_message(filename: &str) -> (m: String)
    ensures
        m@ == upload_complete_json(filename@),
{
    let mut m = "{\"filename\":".to_string();
    m.append(json_string(filename).as_str());
    m.append(",\"type\":\"upload-complete\"}");
    m
}

/// Builds the message that the share has stopped.
pub fn logout_message() -> (m: String)
    ensures
        m@ == logout_json(),
{
    "{\"type\":\"logout\"}".to_string()
}

/// Builds the message that the theme has changed.
pub fn theme_changed_message(theme: &str) -> (m: String)
    ensures
        m@ == theme_changed_json(theme@),
{
    let mut m = "{\"theme\":".to_string();
    m.append(json_string(theme).as_str());
    m.append(",\"type\":\"theme-changed\"}");
    m
}

/// The file name a change is reported under: the last component of the
/// first path the watcher names, or nothing when there is no path or its
/// last component is not a name.
pub open spec fn changed_name(first_path: Option<Seq<char>>) -> Seq<char> {
    match first_path {
        Some(p) => match path_file_name(p) {
            Some(n) => n,
            None => seq![],
        },
        None => seq![],
    }
}

/// Picks the file name a change is reported under.
pub fn changed_file_name(first_path: Option<&str>) -> (name: String)
    ensures
        name@ == changed_name(opt_view(first_path)),
{
    match first_path {
        Some(p) => match file_name_of(p) {
            Some(n) => n,
            None => String::new(),
        },
        None => String::new(),
    }
}

/// Builds the message that the shared directory changed; `event_type` is the
/// watcher's description of the change.
pub fn directory_changed_message(filename: &str, event_type: &str) -> (m: String)
    ensures
        m@ == directory_changed_json(filename@, event_type@),
{
    let mut m = "{\"eventType\":".to_string();
    m.append(json_string(event_type).as_str());
    m.append(",\"filename\":");
    m.append(json_string(filename).as_str());
    m.append(",\"type\":\"directory-changed\"}");
    m
}

} // verus!
