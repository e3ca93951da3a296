use thlauh::auth::{
    check_login_password, get_cookie, login_attempt, password_hash_for, session_cookie_header,
    session_is_valid, sha256_hex, LoginOutcome,
};
use thlauh::portal::generate_login_html;

const PASSWORD_HASH: &str = "5e884898da28047151d0e56f8dc6292773603d0d6aabbdd62a11ef721d1542d8";

#[test]
fn sha256_hex_of_known_inputs() {
    assert_eq!(sha256_hex("password"), PASSWORD_HASH);
    assert_eq!(sha256_hex(""), "e3b0c44298fc1c149afbf4c8996fb92427ae41e4649b934ca495991b7852b855");
    assert_eq!(sha256_hex("abc"), "ba7816bf8f01cfea414140de5dae2223b00361a396177a9cb410ff61f20015ad");
}

#[test]
fn password_hash_is_empty_without_password() {
    assert_eq!(password_hash_for(None), "");
    assert_eq!(password_hash_for(Some("")), "");
    assert_eq!(password_hash_for(Some("password")), PASSWORD_HASH);
}

#[test]
fn cookie_found_among_several() {
    let header = "theme=dark; thlauh_session= abc ;other=1";
    assert_eq!(get_cookie(Some(header), "thlauh_session"), Some("abc".to_string()));
    assert_eq!(get_cookie(Some(header), "other"), Some("1".to_string()));
    assert_eq!(get_cookie(Some(header), "theme"), Some("dark".to_string()));
}

#[test]
fn cookie_value_keeps_later_equals_signs() {
    assert_eq!(get_cookie(Some("k=a=b"), "k"), Some("a=b".to_string()));
}

#[test]
fn cookie_missing_or_header_missing() {
    assert_eq!(get_cookie(None, "thlauh_session"), None);
    assert_eq!(get_cookie(Some("a=1; b=2"), "thlauh_session"), None);
    assert_eq!(get_cookie(Some(""), "a"), None);
}

#[test]
fn a_piece_without_equals_ends_the_search() {
    assert_eq!(get_cookie(Some("flag; thlauh_session=abc"), "thlauh_session"), None);
    assert_eq!(get_cookie(Some("thlauh_session=abc; flag"), "thlauh_session"), Some("abc".to_string()));
}

#[test]
fn session_needed_only_with_password() {
    assert!(session_is_valid("", None));
    assert!(session_is_valid("", Some("thlauh_session=whatever")));
    assert!(!session_is_valid(PASSWORD_HASH, None));
    assert!(!session_is_valid(PASSWORD_HASH, Some("thlauh_session=nope")));
    let header = format!("x=y; thlauh_session={}", PASSWORD_HASH);
    assert!(session_is_valid(PASSWORD_HASH, Some(&header)));
}

#[test]
fn session_cookie_sent_back_is_accepted() {
    let hash = password_hash_for(Some("correct horse"));
    let set_cookie = session_cookie_header(&hash);
    assert_eq!(set_cookie, format!("thlauh_session={}; Path=/; HttpOnly; Max-Age=31536000", hash));
    let sent_back = set_cookie.split(';').next().unwrap().to_string();
    assert!(session_is_valid(&hash, Some(&sent_back)));
}

#[test]
fn login_with_share_password_is_accepted() {
    let hash = password_hash_for(Some("password"));
    match check_login_password("password", &hash, "dark") {
        LoginOutcome::Accepted { location, set_cookie } => {
            assert_eq!(location, "/");
            assert_eq!(set_cookie, session_cookie_header(&hash));
        }
        LoginOutcome::Rejected { .. } => panic!("rejected"),
    }
}

#[test]
fn wrong_password_shows_invalid_password_page() {
    match check_login_password("secret", PASSWORD_HASH, "light") {
        LoginOutcome::Rejected { page } => {
            assert_eq!(page, generate_login_html("light", Some("Invalid password")))
        }
        LoginOutcome::Accepted { .. } => panic!("accepted"),
    }
}

#[test]
fn share_without_password_accepts_no_login() {
    assert!(matches!(check_login_password("", "", "dark"), LoginOutcome::Rejected { .. }));
    assert!(matches!(check_login_password("x", "", "dark"), LoginOutcome::Rejected { .. }));
}

#[test]
fn login_form_body_is_decoded() {
    assert!(matches!(login_attempt(b"password=password", PASSWORD_HASH, "dark"), LoginOutcome::Accepted { .. }));
    assert!(matches!(login_attempt(b"password=pass%77ord", PASSWORD_HASH, "dark"), LoginOutcome::Accepted { .. }));
    let spaced = password_hash_for(Some("a b"));
    assert!(matches!(login_attempt(b"password=a+b", &spaced, "dark"), LoginOutcome::Accepted { .. }));
}

#[test]
fn last_password_field_counts() {
    assert!(matches!(login_attempt(b"password=wrong&password=password", PASSWORD_HASH, "dark"), LoginOutcome::Accepted { .. }));
    assert!(matches!(login_attempt(b"password=password&password=wrong", PASSWORD_HASH, "dark"), LoginOutcome::Rejected { .. }));
}

#[test]
fn missing_password_field_is_the_empty_password() {
    let empty = sha256_hex("");
    assert!(matches!(login_attempt(b"user=me", &empty, "dark"), LoginOutcome::Accepted { .. }));
    assert!(matches!(login_attempt(b"user=me", PASSWORD_HASH, "dark"), LoginOutcome::Rejected { .. }));
}
