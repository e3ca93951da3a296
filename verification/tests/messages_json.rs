use serde_json::Value;
use thlauh::messages::{
    changed_file_name, directory_changed_message, download_complete_message, download_start_message, logout_message,
    theme_changed_message, upload_complete_message, upload_start_message,
};

fn object(pairs: &[(&str, Value)]) -> String {
    let mut m = serde_json::Map::new();
    for (k, v) in pairs {
        m.insert(k.to_string(), v.clone());
    }
    serde_json::to_string(&Value::Object(m)).unwrap()
}

fn s(x: &str) -> Value {
    Value::String(x.to_string())
}

#[test]
fn download_messages() {
    assert_eq!(
        download_start_message("a b.zip", 42),
        "{\"filename\":\"a b.zip\",\"totalSize\":42,\"type\":\"download-start\"}"
    );
    assert_eq!(
        download_start_message("x", 42),
        object(&[("type", s("download-start")), ("filename", s("x")), ("totalSize", Value::from(42u64))])
    );
    assert_eq!(
        download_complete_message("x"),
        object(&[("type", s("download-complete")), ("filename", s("x"))])
    );
}

#[test]
fn upload_messages() {
    assert_eq!(
        upload_start_message("u"),
        object(&[("type", s("upload-start")), ("filename", s("u")), ("totalSize", Value::from(0))])
    );
    assert_eq!(
        upload_complete_message("u"),
        object(&[("type", s("upload-complete")), ("filename", s("u"))])
    );
}

#[test]
fn logout_and_theme_messages() {
    assert_eq!(logout_message(), "{\"type\":\"logout\"}");
    assert_eq!(theme_changed_message("light"), "{\"theme\":\"light\",\"type\":\"theme-changed\"}");
    assert_eq!(
        theme_changed_message("dark"),
        object(&[("type", s("theme-changed")), ("theme", s("dark"))])
    );
}

#[test]
fn directory_change_message() {
    assert_eq!(
        directory_changed_message("new.txt", "Create(File)"),
        "{\"eventType\":\"Create(File)\",\"filename\":\"new.txt\",\"type\":\"directory-changed\"}"
    );
    assert_eq!(
        directory_changed_message("", "Any"),
        object(&[("type", s("directory-changed")), ("filename", s("")), ("eventType", s("Any"))])
    );
}

#[test]
fn names_are_escaped() {
    assert_eq!(
        download_complete_message("q\"b\\s\n\u{1}\u{7f}/\u{e9}"),
        "{\"filename\":\"q\\\"b\\\\s\\n\\u0001\u{7f}/\u{e9}\",\"type\":\"download-complete\"}"
    );
    assert_eq!(
        upload_complete_message("\u{8}\u{c}\r\t\u{1f}"),
        "{\"filename\":\"\\b\\f\\r\\t\\u001f\",\"type\":\"upload-complete\"}"
    );
}

#[test]
fn changes_are_reported_under_the_first_paths_file_name() {
    assert_eq!(changed_file_name(Some("/srv/share/a.txt")), "a.txt");
    assert_eq!(changed_file_name(Some("/srv/share/dir/")), "dir");
    assert_eq!(changed_file_name(Some("/srv/share/..")), "");
    assert_eq!(changed_file_name(Some("/")), "");
    assert_eq!(changed_file_name(None), "");
}
