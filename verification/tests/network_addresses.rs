use thlauh::network::{ipv4_to_string, select_ipv4_addresses, NetworkInterfaceInfo};

fn info(name: &str, address: &str) -> NetworkInterfaceInfo {
    NetworkInterfaceInfo { name: name.to_string(), address: address.to_string() }
}

#[test]
fn dotted_decimal() {
    assert_eq!(ipv4_to_string([192, 168, 1, 20]), "192.168.1.20");
    assert_eq!(ipv4_to_string([0, 0, 0, 0]), "0.0.0.0");
    assert_eq!(ipv4_to_string([255, 10, 100, 9]), "255.10.100.9");
}

#[test]
fn loopback_and_other_kinds_are_skipped() {
    let got = select_ipv4_addresses(vec![
        ("lo".to_string(), Some([127, 0, 0, 1])),
        ("eth0".to_string(), Some([192, 168, 0, 7])),
        ("eth0".to_string(), None),
        ("lo2".to_string(), Some([127, 5, 5, 5])),
        ("wlan0".to_string(), Some([10, 0, 0, 3])),
    ]);
    assert_eq!(got, vec![info("eth0", "192.168.0.7"), info("wlan0", "10.0.0.3")]);
}

#[test]
fn loopback_offered_when_nothing_else() {
    let fallback = vec![info("Local Loopback", "127.0.0.1")];
    assert_eq!(select_ipv4_addresses(Vec::new()), fallback);
    assert_eq!(select_ipv4_addresses(vec![("lo".to_string(), Some([127, 0, 0, 1]))]), fallback);
    assert_eq!(select_ipv4_addresses(vec![("v6".to_string(), None)]), fallback);
}
