use thlauh::portal::{file_items_to_json, generate_directory_html, generate_login_html, request_segments, breadcrumb_trail, FileItem};
use thlauh::templates::{
    BACK_LINK_CLOSE, DIR_PAGE_CLOSE, DIR_PAGE_OPEN, DIR_PAGE_TO_BREADCRUMB, DIR_PAGE_TO_FILES,
    DIR_PAGE_TO_FILE_COUNT, DIR_PAGE_TO_REQ_PATH, LOGIN_PAGE_CLOSE, LOGIN_PAGE_OPEN,
    LOGIN_PAGE_TO_ERROR, ROOT_LINK,
};

#[test]
fn login_page_without_error_has_no_banner() {
    let html = generate_login_html("dark", None);
    assert!(html.starts_with("<!DOCTYPE html>\n<html lang=\"en\" class=\"dark\">"));
    assert_eq!(html, format!("{}dark{}{}", LOGIN_PAGE_OPEN, LOGIN_PAGE_TO_ERROR, LOGIN_PAGE_CLOSE));
    assert!(!html.contains("bg-rose-500/10"));
    assert!(html.contains("<form method=\"POST\" action=\"/login\""));
}

#[test]
fn login_page_with_error_shows_banner() {
    let html = generate_login_html("light", Some("Invalid password"));
    assert!(html.contains("<div class=\"bg-rose-500/10 border border-rose-500/20 text-rose-400 text-xs py-2.5 px-3.5 rounded-md text-center font-medium\">Invalid password</div>"));
    assert!(html.contains("class=\"light\""));
    assert!(html.ends_with("</html>"));
}

#[test]
fn files_become_a_json_array() {
    let files = vec![
        FileItem { name: "a\"b".to_string(), is_directory: false, size: 12 },
        FileItem { name: "dir".to_string(), is_directory: true, size: 0 },
    ];
    assert_eq!(
        file_items_to_json(&files),
        "[{\"name\":\"a\\\"b\",\"isDirectory\":false,\"size\":12},{\"name\":\"dir\",\"isDirectory\":true,\"size\":0}]"
    );
    assert_eq!(file_items_to_json(&[]), "[]");
}

#[test]
fn files_json_matches_serde_json_of_the_same_records() {
    let files = vec![FileItem { name: "tab\there\u{1}\\x".to_string(), is_directory: false, size: 18446744073709551615 }];
    let mut obj = serde_json::Map::new();
    obj.insert("name".to_string(), serde_json::Value::String("tab\there\u{1}\\x".to_string()));
    let expected = format!(
        "[{{\"name\":{},\"isDirectory\":false,\"size\":18446744073709551615}}]",
        serde_json::to_string(obj.get("name").unwrap()).unwrap()
    );
    assert_eq!(file_items_to_json(&files), expected);
}

#[test]
fn request_path_segments_skip_empty_parts() {
    assert_eq!(request_segments("//a///b/"), vec!["a".to_string(), "b".to_string()]);
    assert!(request_segments("/").is_empty());
    assert!(request_segments("").is_empty());
}

#[test]
fn root_breadcrumb_is_the_root_link_alone() {
    assert_eq!(breadcrumb_trail("/"), ROOT_LINK);
    assert_eq!(breadcrumb_trail(""), ROOT_LINK);
}

#[test]
fn breadcrumb_links_each_folder_and_goes_up_one() {
    let trail = breadcrumb_trail("/docs/2024/");
    let expected = format!(
        "<a href=\"/docs{}{}{}{}",
        BACK_LINK_CLOSE,
        ROOT_LINK,
        " <span class=\"breadcrumbs-separator\">/</span> <a href=\"/docs\">docs</a>",
        " <span class=\"breadcrumbs-separator\">/</span> <a href=\"/docs/2024\">2024</a>"
    );
    assert_eq!(trail, expected);
}

#[test]
fn breadcrumb_of_one_folder_goes_up_to_root() {
    let trail = breadcrumb_trail("music");
    assert!(trail.starts_with("<a href=\"/\" class=\"breadcrumbs-back-btn\""));
    assert!(trail.ends_with(" <span class=\"breadcrumbs-separator\">/</span> <a href=\"/music\">music</a>"));
}

#[test]
fn directory_page_holds_theme_trail_count_and_json() {
    let files = vec![FileItem { name: "x.png".to_string(), is_directory: false, size: 3 }];
    let html = generate_directory_html("/srv/share/pics", "/pics", &files, "light");
    let expected = format!(
        "{}light{}{}{}1{}\"/pics\"{}{}{}",
        DIR_PAGE_OPEN,
        DIR_PAGE_TO_BREADCRUMB,
        breadcrumb_trail("/pics"),
        DIR_PAGE_TO_FILE_COUNT,
        DIR_PAGE_TO_REQ_PATH,
        DIR_PAGE_TO_FILES,
        file_items_to_json(&files),
        DIR_PAGE_CLOSE
    );
    assert_eq!(html, expected);
    assert!(html.contains("Files (1)"));
    assert!(html.contains("reqPath: \"/pics\","));
    assert!(!html.contains("/srv/share"));
}
