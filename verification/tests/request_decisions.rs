use thlauh::portal::{file_items_to_json, generate_directory_html, generate_login_html, FileItem};
use thlauh::requests::{
    decide_get, decide_post, decode_request_path, directory_response, file_response, flag_is_true,
    is_multipart, path_leaves_share, socket_step, trim_leading_slashes, DirectoryBody, GetDecision, PostDecision,
    SocketAction, SocketEvent, UploadProgress,
};

const HASH: &str = "5e884898da28047151d0e56f8dc6292773603d0d6aabbdd62a11ef721d1542d8";

#[test]
fn request_paths_are_percent_decoded() {
    assert_eq!(decode_request_path("/a%20b/%E2%9C%93"), "/a b/\u{2713}");
    assert_eq!(decode_request_path("/%41%4a%4A"), "/AJJ");
    assert_eq!(decode_request_path("/100%"), "/100%");
    assert_eq!(decode_request_path("/%zz%4"), "/%zz%4");
    assert_eq!(decode_request_path("/plain"), "/plain");
}

#[test]
fn invalid_utf8_becomes_replacement_character() {
    assert_eq!(decode_request_path("/%FF"), "/\u{FFFD}");
}

#[test]
fn leading_slashes_are_trimmed() {
    assert_eq!(trim_leading_slashes("///a/b/"), "a/b/");
    assert_eq!(trim_leading_slashes("a"), "a");
    assert_eq!(trim_leading_slashes("//"), "");
}

#[test]
fn open_share_resolves_inside_the_shared_folder() {
    match decide_get("/srv/share", "", "dark", None, None, "/docs/a.txt") {
        GetDecision::Resolve { file_path } => assert_eq!(file_path, "/srv/share/docs/a.txt"),
        _ => panic!("not resolved"),
    }
    match decide_get("/srv/share", "", "dark", None, None, "/") {
        GetDecision::Resolve { file_path } => assert_eq!(file_path, "/srv/share/"),
        _ => panic!("not resolved"),
    }
}

#[test]
fn paths_climbing_out_of_the_share_are_refused() {
    for p in ["/../secret.txt", "/..", "/a/../../x", "//../x", "/./../x", "/a/./../.."] {
        assert!(matches!(decide_get("/srv/share", "", "dark", None, None, p), GetDecision::Forbidden), "{}", p);
    }
}

#[test]
fn backslashes_separate_only_where_the_platform_says_so() {
    let backslash = std::path::is_separator('\\');
    for p in ["/..\\secret.txt", "/a\\..\\.."] {
        let refused = matches!(decide_get("/srv/share", "", "dark", None, None, p), GetDecision::Forbidden);
        assert_eq!(refused, backslash, "{}", p);
    }
    assert_eq!(path_leaves_share("..\\x"), backslash);
    assert_eq!(path_leaves_share("a\\..\\.."), backslash);
    assert_eq!(path_leaves_share("a\\b/../../x"), !backslash);
    let refused = matches!(decide_get("/srv/share", "", "dark", None, None, "/a\\b/../../secret"), GetDecision::Forbidden);
    assert_eq!(refused, !backslash);
}

#[test]
fn parent_components_that_stay_inside_are_served() {
    match decide_get("/srv/share", "", "dark", None, None, "/a/../b") {
        GetDecision::Resolve { file_path } => assert_eq!(file_path, "/srv/share/a/../b"),
        _ => panic!("not resolved"),
    }
    match decide_get("/srv/share", "", "dark", None, None, "/a//b/../../c..d/...") {
        GetDecision::Resolve { file_path } => assert_eq!(file_path, "/srv/share/a//b/../../c..d/..."),
        _ => panic!("not resolved"),
    }
}

#[test]
fn lexical_containment_of_relative_paths() {
    assert!(path_leaves_share(".."));
    assert!(path_leaves_share("../a"));
    assert!(path_leaves_share("a/../.."));
    assert!(path_leaves_share("./.././x"));
    assert!(!path_leaves_share(""));
    assert!(!path_leaves_share("a/.."));
    assert!(!path_leaves_share("a/b/../../c"));
    assert!(!path_leaves_share("..."));
    assert!(!path_leaves_share("..a/b"));
}

#[test]
fn right_token_redirects_with_session_cookie() {
    match decide_get("/srv/share", HASH, "dark", Some(HASH), None, "/pics") {
        GetDecision::Redirect { location, set_cookie } => {
            assert_eq!(location, "/pics");
            assert_eq!(set_cookie, format!("thlauh_session={}; Path=/; HttpOnly; Max-Age=31536000", HASH));
        }
        _ => panic!("no redirect"),
    }
}

#[test]
fn without_session_the_login_page_is_shown() {
    match decide_get("/srv/share", HASH, "light", Some("bad"), Some("thlauh_session=bad"), "/") {
        GetDecision::LoginPage { html } => assert_eq!(html, generate_login_html("light", None)),
        _ => panic!("no login page"),
    }
}

#[test]
fn with_session_the_file_is_resolved() {
    let cookie = format!("thlauh_session={}", HASH);
    assert!(matches!(
        decide_get("/srv/share", HASH, "dark", None, Some(&cookie), "/x"),
        GetDecision::Resolve { .. }
    ));
}

#[test]
fn token_on_open_share_is_ignored() {
    assert!(matches!(decide_get("/srv", "", "dark", Some(""), None, "/x"), GetDecision::Resolve { .. }));
}

#[test]
fn query_flags_must_be_true() {
    assert!(flag_is_true(Some("true")));
    assert!(!flag_is_true(Some("True")));
    assert!(!flag_is_true(Some("1")));
    assert!(!flag_is_true(None));
}

#[test]
fn directory_answer_is_json_or_page() {
    let files = vec![FileItem { name: "a".to_string(), is_directory: true, size: 0 }];
    match directory_response(&files, Some("true"), "/srv/a", "/a", "dark") {
        DirectoryBody::Json(j) => assert_eq!(j, file_items_to_json(&files)),
        DirectoryBody::Html(_) => panic!("html"),
    }
    match directory_response(&files, None, "/srv/a", "/a", "dark") {
        DirectoryBody::Html(h) => assert_eq!(h, generate_directory_html("/srv/a", "/a", &files, "dark")),
        DirectoryBody::Json(_) => panic!("json"),
    }
}

#[test]
fn preview_is_inline_with_its_type() {
    let a = file_response("/srv/share/photo.JPG", 1234, Some("true"));
    assert_eq!(a.content_type, "image/jpeg");
    assert_eq!(a.content_length, "1234");
    assert!(a.content_disposition.is_none());
    assert!(a.start_message.is_none());
    assert!(a.complete_message.is_none());
}

#[test]
fn download_is_announced_and_named() {
    let a = file_response("/srv/share/photo.JPG", 1234, None);
    assert_eq!(a.content_type, "application/octet-stream");
    assert_eq!(a.content_length, "1234");
    assert_eq!(a.content_disposition.unwrap(), "attachment; filename=\"photo.JPG\"");
    assert_eq!(a.start_message.unwrap(), "{\"filename\":\"photo.JPG\",\"totalSize\":1234,\"type\":\"download-start\"}");
    assert_eq!(a.complete_message.unwrap(), "{\"filename\":\"photo.JPG\",\"type\":\"download-complete\"}");
}

#[test]
fn download_without_file_name_is_called_file() {
    let a = file_response("/", 0, Some("false"));
    assert_eq!(a.content_disposition.unwrap(), "attachment; filename=\"file\"");
    assert_eq!(a.content_length, "0");
}

#[test]
fn post_to_login_is_the_login_form() {
    assert!(matches!(decide_post("/srv", HASH, "dark", None, "/login"), PostDecision::Login));
    assert!(matches!(decide_post("/srv", "", "dark", None, "/login"), PostDecision::Login));
}

#[test]
fn upload_needs_a_session() {
    match decide_post("/srv", HASH, "dark", None, "/docs") {
        PostDecision::LoginPage { html } => assert_eq!(html, generate_login_html("dark", None)),
        _ => panic!("no login page"),
    }
    match decide_post("/srv", "", "dark", None, "//docs") {
        PostDecision::Upload { upload_dir } => assert_eq!(upload_dir, "/srv/docs"),
        _ => panic!("no upload"),
    }
}

#[test]
fn multipart_content_types() {
    assert!(is_multipart(Some("multipart/form-data; boundary=xyz")));
    assert!(is_multipart(Some("multipart/form-data")));
    assert!(!is_multipart(Some("multipart/form")));
    assert!(!is_multipart(Some("text/plain")));
    assert!(!is_multipart(Some("Multipart/form-data")));
    assert!(!is_multipart(None));
}

#[test]
fn upload_progress_reports_last_file() {
    let mut p = UploadProgress::new();
    assert_eq!(p.completion_message(), None);
    let (name, msg) = p.start_field(Some("a.txt"));
    assert_eq!(name, "a.txt");
    assert_eq!(msg, "{\"filename\":\"a.txt\",\"totalSize\":0,\"type\":\"upload-start\"}");
    p.file_saved();
    let (name, _) = p.start_field(None);
    assert_eq!(name, "uploaded_file");
    p.file_saved();
    assert_eq!(p.uploaded, 2);
    assert_eq!(
        p.completion_message(),
        Some("{\"filename\":\"uploaded_file\",\"type\":\"upload-complete\"}".to_string())
    );
}

#[test]
fn failed_field_still_names_the_last_file() {
    let mut p = UploadProgress::new();
    p.start_field(Some("broken.bin"));
    assert_eq!(p.last_filename, "broken.bin");
    assert_eq!(p.completion_message(), None);
}

#[test]
fn websocket_forwards_broadcasts_and_ignores_browsers() {
    assert!(matches!(socket_step(SocketEvent::Broadcast(Some("x".to_string()))), SocketAction::Send(t) if t == "x"));
    assert!(matches!(socket_step(SocketEvent::Broadcast(None)), SocketAction::Close));
    assert!(matches!(socket_step(SocketEvent::Client(true)), SocketAction::Ignore));
    assert!(matches!(socket_step(SocketEvent::Client(false)), SocketAction::Close));
}
