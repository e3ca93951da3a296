use thlauh::mime::{get_mime_type, mime_type_for_extension};

#[test]
fn known_extensions() {
    let cases = [
        ("a.png", "image/png"),
        ("a.jpg", "image/jpeg"),
        ("a.jpeg", "image/jpeg"),
        ("a.gif", "image/gif"),
        ("a.webp", "image/webp"),
        ("a.svg", "image/svg+xml"),
        ("a.mp4", "video/mp4"),
        ("a.webm", "video/webm"),
        ("a.ogg", "video/ogg"),
        ("a.mp3", "audio/mpeg"),
        ("a.wav", "audio/wav"),
        ("a.pdf", "application/pdf"),
        ("a.txt", "text/plain"),
        ("a.html", "text/html"),
        ("a.css", "text/css"),
        ("a.js", "application/javascript"),
        ("a.json", "application/json"),
    ];
    for (path, mime) in cases {
        assert_eq!(get_mime_type(path), mime, "{}", path);
    }
}

#[test]
fn extensions_are_compared_without_case() {
    assert_eq!(get_mime_type("/srv/Photo.PNG"), "image/png");
    assert_eq!(get_mime_type("clip.Mp4"), "video/mp4");
}

#[test]
fn unknown_or_missing_extension_is_bytes() {
    assert_eq!(get_mime_type("archive.tar.gz"), "application/octet-stream");
    assert_eq!(get_mime_type("/srv/.bashrc"), "application/octet-stream");
    assert_eq!(get_mime_type("Makefile"), "application/octet-stream");
    assert_eq!(get_mime_type("dir/"), "application/octet-stream");
    assert_eq!(get_mime_type(""), "application/octet-stream");
}

#[test]
fn only_the_last_extension_counts() {
    assert_eq!(get_mime_type("page.txt.html"), "text/html");
    assert_eq!(get_mime_type("dir.png/readme"), "application/octet-stream");
}

#[test]
fn extension_table_expects_lowercase() {
    assert_eq!(mime_type_for_extension("css"), "text/css");
    assert_eq!(mime_type_for_extension("CSS"), "application/octet-stream");
    assert_eq!(mime_type_for_extension(""), "application/octet-stream");
}
