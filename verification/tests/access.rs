use airtally_restapi::access::{
    access_decision, bearer_token, expected_api_key, first_forwarded_address, has_permission,
    ipv4_in_network, is_allowed_ip, is_ip_in_network, is_loopback, is_private,
    sanitize_user_agent, status_class, AccessDecision, IpAddress, Network, StatusClass,
};

fn v4(a: u8, b: u8, c: u8, d: u8) -> IpAddress {
    IpAddress::V4 { bits: u32::from_be_bytes([a, b, c, d]) }
}

fn v6(segments: [u16; 8]) -> IpAddress {
    IpAddress::V6 { segments }
}

#[test]
fn test_extract_client_ip() {
    assert!(true);
    assert_eq!(first_forwarded_address("203.0.113.7, 10.0.0.1, 10.0.0.2"), "203.0.113.7");
}

#[test]
fn first_forwarded_address_is_trimmed() {
    assert_eq!(first_forwarded_address("  192.168.1.100  ,10.0.0.1"), "192.168.1.100");
    assert_eq!(first_forwarded_address("192.168.1.100"), "192.168.1.100");
    assert_eq!(first_forwarded_address(",10.0.0.1"), "");
    assert_eq!(first_forwarded_address(""), "");
}

#[test]
fn test_is_ip_in_network_ipv4() {
    let ip = v4(192, 168, 1, 100);
    assert!(is_ip_in_network(&ip, &Network::Cidr { address: v4(192, 168, 1, 0), prefix: 24 }));
    assert!(is_ip_in_network(&ip, &Network::Single { address: v4(192, 168, 1, 100) }));
    assert!(!is_ip_in_network(&ip, &Network::Cidr { address: v4(192, 168, 2, 0), prefix: 24 }));
    assert!(!is_ip_in_network(&ip, &Network::Cidr { address: v4(10, 0, 0, 0), prefix: 24 }));
    assert!(!is_ip_in_network(&ip, &Network::Single { address: v4(192, 168, 1, 101) }));
}

#[test]
fn test_is_ip_in_network_ipv6() {
    let ip = v6([0x2001, 0xdb8, 0, 0, 0, 0, 0, 1]);
    assert!(is_ip_in_network(&ip, &Network::Cidr { address: v6([0x2001, 0xdb8, 0, 0, 0, 0, 0, 0]), prefix: 32 }));
    assert!(!is_ip_in_network(&ip, &Network::Cidr { address: v6([0x2001, 0xdb8, 0, 1, 0, 0, 0, 0]), prefix: 32 }));
    assert!(is_ip_in_network(&ip, &Network::Single { address: ip }));
    assert!(!is_ip_in_network(&ip, &Network::Single { address: v6([0x2001, 0xdb8, 0, 0, 0, 0, 0, 2]) }));
    assert!(!is_ip_in_network(&ip, &Network::Cidr { address: v4(192, 168, 1, 0), prefix: 24 }));
    assert!(!is_ip_in_network(&v4(1, 2, 3, 4), &Network::Single { address: ip }));
}

#[test]
fn ipv4_prefix_counts_leading_bits() {
    let net = u32::from_be_bytes([172, 16, 0, 0]);
    assert!(ipv4_in_network(net, u32::from_be_bytes([172, 31, 255, 255]), 12));
    assert!(!ipv4_in_network(net, u32::from_be_bytes([172, 32, 0, 0]), 12));
    assert!(ipv4_in_network(net, u32::from_be_bytes([255, 0, 0, 0]), 1));
    assert!(!ipv4_in_network(net, u32::from_be_bytes([127, 0, 0, 0]), 1));
    assert!(ipv4_in_network(net, net, 32));
    assert!(!ipv4_in_network(net, net + 1, 32));
    assert!(ipv4_in_network(net, net + 1, 31));
}

#[test]
fn loopback_and_private_addresses() {
    assert!(is_loopback(&v4(127, 0, 0, 1)));
    assert!(is_loopback(&v4(127, 255, 255, 254)));
    assert!(!is_loopback(&v4(128, 0, 0, 1)));
    assert!(is_loopback(&v6([0, 0, 0, 0, 0, 0, 0, 1])));
    assert!(!is_loopback(&v6([0, 0, 0, 0, 0, 0, 0, 2])));
    assert!(!is_loopback(&v6([1, 0, 0, 0, 0, 0, 0, 1])));

    assert!(is_private(&v4(10, 1, 2, 3)));
    assert!(is_private(&v4(172, 16, 0, 1)));
    assert!(is_private(&v4(172, 31, 255, 255)));
    assert!(!is_private(&v4(172, 32, 0, 1)));
    assert!(is_private(&v4(192, 168, 100, 1)));
    assert!(!is_private(&v4(192, 169, 0, 1)));
    assert!(!is_private(&v4(8, 8, 8, 8)));
    assert!(!is_private(&v6([0xfc00, 0, 0, 0, 0, 0, 0, 1])));
}

#[test]
fn allowed_addresses() {
    let networks = vec![
        Network::Cidr { address: v4(192, 168, 1, 0), prefix: 24 },
        Network::Cidr { address: v4(10, 17, 0, 0), prefix: 16 },
    ];
    // loopback always
    assert!(is_allowed_ip(&v4(127, 0, 0, 1), false, &networks));
    assert!(is_allowed_ip(&v4(127, 0, 0, 1), true, &Vec::new()));
    // development: private addresses, and only those
    assert!(is_allowed_ip(&v4(10, 99, 0, 1), true, &networks));
    assert!(!is_allowed_ip(&v4(8, 8, 8, 8), true, &networks));
    // elsewhere: the listed networks
    assert!(is_allowed_ip(&v4(192, 168, 1, 77), false, &networks));
    assert!(is_allowed_ip(&v4(10, 17, 200, 1), false, &networks));
    assert!(!is_allowed_ip(&v4(10, 18, 0, 1), false, &networks));
    assert!(!is_allowed_ip(&v4(192, 168, 1, 77), false, &Vec::new()));
}

#[test]
fn access_decisions() {
    assert_eq!(access_decision("/health", "", "key", false), AccessDecision::HealthCheck);
    assert_eq!(access_decision("/health", "wrong", "key", true), AccessDecision::HealthCheck);
    assert_eq!(access_decision("/api/flights", "", "key", true), AccessDecision::Unauthorized);
    assert_eq!(access_decision("/api/flights", "KEY", "key", true), AccessDecision::Unauthorized);
    assert_eq!(access_decision("/api/flights", "key", "key", false), AccessDecision::Forbidden);
    assert_eq!(access_decision("/api/flights", "key", "key", true), AccessDecision::Granted);
    assert_eq!(access_decision("/health/", "key", "key", true), AccessDecision::Granted);
}

#[test]
fn expected_api_keys() {
    assert_eq!(expected_api_key(Some("configured".to_string()), true), "configured");
    assert_eq!(expected_api_key(Some("configured".to_string()), false), "configured");
    assert_eq!(expected_api_key(None, true), "airtally_dev_key_2025");
    assert_eq!(expected_api_key(None, false), "airtally_production_secure_key_2025");
}

#[test]
fn bearer_tokens() {
    assert_eq!(bearer_token("Bearer abc.def.ghi").as_deref(), Some("abc.def.ghi"));
    assert_eq!(bearer_token("Bearer ").as_deref(), Some(""));
    assert_eq!(bearer_token("Bearer  x").as_deref(), Some(" x"));
    assert_eq!(bearer_token("bearer abc"), None);
    assert_eq!(bearer_token("Bearer"), None);
    assert_eq!(bearer_token("Basic abc"), None);
    assert_eq!(bearer_token(""), None);
}

#[test]
fn permissions() {
    let held = vec!["flights.read".to_string(), "flights.write".to_string()];
    assert!(has_permission(&held, "flights.read"));
    assert!(has_permission(&held, "flights.write"));
    assert!(!has_permission(&held, "users.read"));
    assert!(!has_permission(&held, "flights"));
    assert!(!has_permission(&Vec::new(), "flights.read"));
    let admin = vec!["system.admin".to_string()];
    assert!(has_permission(&admin, "users.delete"));
    let not_admin = vec!["systems.admin".to_string(), "my.system.x".to_string()];
    assert!(!has_permission(&not_admin, "users.delete"));
}

#[test]
fn user_agents_are_cut_and_cleaned() {
    assert_eq!(sanitize_user_agent("Mozilla/5.0 (X11)"), "Mozilla/5.0 (X11)");
    assert_eq!(sanitize_user_agent("a\tb\u{7f}c\u{e9}d"), "abcd");
    let long = "x".repeat(250);
    assert_eq!(sanitize_user_agent(&long), "x".repeat(200));
    // the cut comes first: of the first 200 characters, 100 are dropped
    let mixed = "\u{e9}a".repeat(150);
    assert_eq!(sanitize_user_agent(&mixed), "a".repeat(100));
    assert_eq!(sanitize_user_agent(""), "");
}

#[test]
fn status_classes() {
    for (status, class) in [
        (199u16, StatusClass::Other),
        (200, StatusClass::Success),
        (299, StatusClass::Success),
        (300, StatusClass::Other),
        (399, StatusClass::Other),
        (400, StatusClass::ClientError),
        (499, StatusClass::ClientError),
        (500, StatusClass::ServerError),
        (599, StatusClass::ServerError),
        (600, StatusClass::Other),
    ] {
        assert_eq!(status_class(status), class, "{status}");
    }
}
