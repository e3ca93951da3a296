use thlauh::mdns::MdnsPublisher;
use thlauh::server::{http_url_for, listen_address, prepare_start, server_info, StartServerResult};

#[test]
fn urls_and_addresses() {
    assert_eq!(http_url_for("thlauh.local", 4000), "http://thlauh.local:4000");
    assert_eq!(http_url_for("10.0.0.2", 0), "http://10.0.0.2:0");
    assert_eq!(listen_address("192.168.1.5", 65535), "192.168.1.5:65535");
}

#[test]
fn server_info_hides_empty_hash() {
    let info = server_info(
        "/home/me/share",
        "192.168.1.5",
        StartServerResult { password_hash: String::new(), mdns_url: "http://thlauh.local:4000".to_string() },
    );
    assert_eq!(info.path, "/home/me/share");
    assert_eq!(info.server_url, "http://192.168.1.5:4000");
    assert_eq!(info.mdns_url, "http://thlauh.local:4000");
    assert_eq!(info.password_hash, None);
}

#[test]
fn server_info_keeps_hash() {
    let info = server_info(
        "/x",
        "10.0.0.1",
        StartServerResult { password_hash: "ab".to_string(), mdns_url: "u".to_string() },
    );
    assert_eq!(info.password_hash, Some("ab".to_string()));
}

#[test]
fn starting_a_share_reports_hash_and_mdns_url() {
    let mut publisher = MdnsPublisher::new();
    let r = prepare_start(&mut publisher, "127.0.0.1", 4000, Some("password"), None);
    assert_eq!(r.password_hash, "5e884898da28047151d0e56f8dc6292773603d0d6aabbdd62a11ef721d1542d8");
    assert_eq!(r.mdns_url, "http://thlauh.local:4000");
    let r = prepare_start(&mut publisher, "127.0.0.1", 8080, Some(""), Some("den.local"));
    assert_eq!(r.password_hash, "");
    assert_eq!(r.mdns_url, "http://den.local:8080");
    publisher.unpublish_service();
}
