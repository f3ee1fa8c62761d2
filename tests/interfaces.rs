use mock_server::{network_interfaces, text_starts_with};

fn pair(name: &str, ip: &str) -> (String, String) {
    (name.to_string(), ip.to_string())
}

#[test]
fn fixed_choices_come_first() {
    let r = network_interfaces(Vec::new());
    assert_eq!(r.len(), 2);
    assert_eq!(r[0].name, "Localhost (127.0.0.1)");
    assert_eq!(r[0].ip, "127.0.0.1");
    assert_eq!(r[1].name, "All Interfaces (0.0.0.0)");
    assert_eq!(r[1].ip, "0.0.0.0");
}

#[test]
fn loopback_and_link_local_are_skipped() {
    let r = network_interfaces(vec![
        pair("lo", "127.0.0.1"),
        pair("eth0", "192.168.1.20"),
        pair("eth1", "169.254.3.4"),
        pair("wlan0", "10.0.0.5"),
    ]);
    let got: Vec<(String, String)> = r.into_iter().map(|n| (n.name, n.ip)).collect();
    assert_eq!(got[2], pair("eth0 (192.168.1.20)", "192.168.1.20"));
    assert_eq!(got[3], pair("wlan0 (10.0.0.5)", "10.0.0.5"));
    assert_eq!(got.len(), 4);
}

#[test]
fn prefix_test() {
    assert!(text_starts_with("169.254.1.1", "169.254"));
    assert!(!text_starts_with("169.25", "169.254"));
    assert!(text_starts_with("abc", ""));
    assert!(!text_starts_with("10.169.254", "169.254"));
}
