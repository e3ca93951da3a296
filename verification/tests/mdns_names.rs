use thlauh::mdns::{clean_hostname, MdnsPublisher};

#[test]
fn host_names_are_trimmed_and_defaulted() {
    assert_eq!(clean_hostname("  myshare "), "myshare");
    assert_eq!(clean_hostname(""), "thlauh");
    assert_eq!(clean_hostname(" \t\n"), "thlauh");
}

#[test]
fn trailing_local_is_removed_in_any_case() {
    assert_eq!(clean_hostname("box.local"), "box");
    assert_eq!(clean_hostname("Box.LOCAL"), "Box");
    assert_eq!(clean_hostname("a.local.local"), "a.local");
    assert_eq!(clean_hostname(".local"), "");
    assert_eq!(clean_hostname("local"), "local");
    assert_eq!(clean_hostname("boxlocal"), "boxlocal");
}

#[test]
fn published_name_asked_again_is_the_same() {
    for name in ["box.local", " x ", "", "a.local.local", ".local", "Photos "] {
        let once = format!("{}.local", clean_hostname(name));
        let twice = format!("{}.local", clean_hostname(&once));
        assert_eq!(once, twice, "{:?}", name);
    }
}

#[test]
fn new_publisher_announces_nothing() {
    let mut p = MdnsPublisher::new();
    assert!(!p.is_publishing());
    p.unpublish_service();
    assert!(!p.is_publishing());
}

#[test]
fn publishing_returns_the_local_name_and_unpublishing_stops() {
    let mut p = MdnsPublisher::new();
    let name = p.publish_service(" Kitchen.Local ", "127.0.0.1", 4000);
    assert_eq!(name, "Kitchen.local");
    p.unpublish_service();
    assert!(!p.is_publishing());
}

#[test]
fn publishing_again_replaces_the_earlier_share() {
    let mut p = MdnsPublisher::new();
    assert_eq!(p.publish_service("first", "127.0.0.1", 4000), "first.local");
    assert_eq!(p.publish_service("second.local", "127.0.0.1", 4001), "second.local");
    p.unpublish_service();
    p.unpublish_service();
    assert!(!p.is_publishing());
}
