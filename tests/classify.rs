use ip_check::classify::{
    build_ip_info, detect_connection_type, detect_tor, detect_vpn, get_client_ip,
    is_mobile_device,
};
use ip_check::request::RequestHeaders;

fn headers_of(pairs: &[(&str, &str)]) -> RequestHeaders {
    let mut h = RequestHeaders::new();
    for (name, value) in pairs {
        h.push(name, Some(value));
    }
    h
}

#[test]
fn cloudflare_ip_wins_over_everything() {
    let h = headers_of(&[
        ("X-Forwarded-For", "9.9.9.9"),
        ("X-Real-IP", "8.8.8.8"),
        ("CF-Connecting-IP", "1.1.1.1"),
    ]);
    assert_eq!(get_client_ip(&h, "203.0.113.9"), "1.1.1.1");
}

#[test]
fn real_ip_before_forwarded_for() {
    let h = headers_of(&[("X-Forwarded-For", "9.9.9.9"), ("X-Real-IP", "8.8.8.8")]);
    assert_eq!(get_client_ip(&h, "203.0.113.9"), "8.8.8.8");
}

#[test]
fn forwarded_for_first_entry_trimmed() {
    let h = headers_of(&[("X-Forwarded-For", "1.2.3.4, 5.6.7.8")]);
    assert_eq!(get_client_ip(&h, "203.0.113.9"), "1.2.3.4");
}

#[test]
fn forwarded_for_leading_blanks_trimmed() {
    let h = headers_of(&[("X-Forwarded-For", " \t 4.3.2.1 ,5.6.7.8")]);
    assert_eq!(get_client_ip(&h, "203.0.113.9"), "4.3.2.1");
}

#[test]
fn forwarded_for_empty_gives_empty() {
    let h = headers_of(&[("X-Forwarded-For", "")]);
    assert_eq!(get_client_ip(&h, "203.0.113.9"), "");
}

#[test]
fn forwarded_for_leading_comma_gives_empty() {
    let h = headers_of(&[("X-Forwarded-For", ",1.2.3.4")]);
    assert_eq!(get_client_ip(&h, "203.0.113.9"), "");
}

#[test]
fn no_forwarding_headers_gives_peer() {
    let h = headers_of(&[("User-Agent", "curl/8.0"), ("Accept", "*/*")]);
    assert_eq!(get_client_ip(&h, "198.51.100.7"), "198.51.100.7");
}

#[test]
fn plain_view_answers_peer_address() {
    let h = RequestHeaders::new();
    assert_eq!(get_client_ip(&h, "203.0.113.9"), "203.0.113.9");
}

#[test]
fn unreadable_cloudflare_value_falls_through() {
    let mut h = RequestHeaders::new();
    h.push("CF-Connecting-IP", Some("1.1.1.1\u{e9}"));
    h.push("X-Real-IP", Some("8.8.8.8"));
    assert_eq!(get_client_ip(&h, "203.0.113.9"), "8.8.8.8");
    let mut g = RequestHeaders::new();
    g.push("CF-Connecting-IP", None);
    assert_eq!(get_client_ip(&g, "203.0.113.9"), "203.0.113.9");
    assert_eq!(detect_connection_type(&g), "Cloudflare");
}

#[test]
fn header_names_ignore_ascii_case() {
    let h = headers_of(&[("cf-connecting-ip", "1.1.1.1")]);
    assert_eq!(get_client_ip(&h, "203.0.113.9"), "1.1.1.1");
    assert_eq!(detect_connection_type(&h), "Cloudflare");
}

#[test]
fn first_of_repeated_header_is_used() {
    let h = headers_of(&[("X-Real-IP", "8.8.8.8"), ("X-Real-IP", "7.7.7.7")]);
    assert_eq!(get_client_ip(&h, "203.0.113.9"), "8.8.8.8");
}

#[test]
fn connection_type_cloudflare_precedes_real_ip() {
    let h = headers_of(&[("X-Real-IP", "8.8.8.8"), ("CF-Connecting-IP", "1.1.1.1")]);
    assert_eq!(detect_connection_type(&h), "Cloudflare");
}

#[test]
fn connection_type_each_label() {
    assert_eq!(detect_connection_type(&headers_of(&[("X-Real-IP", "x")])), "Proxy/Load Balancer");
    assert_eq!(detect_connection_type(&headers_of(&[("X-Forwarded-For", "x")])), "Forwarded");
    assert_eq!(detect_connection_type(&headers_of(&[("Host", "example.org")])), "Direct");
}

#[test]
fn mobile_heuristic() {
    assert!(is_mobile_device("Mozilla/5.0 (iPhone; CPU iPhone OS 17_0 like Mac OS X)"));
    assert!(!is_mobile_device("Mozilla/5.0 (Windows NT 10.0)"));
    assert!(is_mobile_device("Opera/9.80 (J2ME/MIDP; Opera Mini/9.80)"));
    assert!(is_mobile_device("Mozilla/5.0 (Linux; Android 14)"));
    assert!(!is_mobile_device("mozilla/5.0 (iphone)"));
    assert!(!is_mobile_device("Unknown"));
    assert!(!is_mobile_device(""));
}

#[test]
fn tor_heuristic() {
    assert!(detect_tor(&headers_of(&[("X-Tor", "")])));
    assert!(detect_tor(&headers_of(&[("X-Tor-Exit-Node", "1")])));
    assert!(!detect_tor(&headers_of(&[("X-Torrent", "1")])));
}

#[test]
fn vpn_heuristic_private_prefix() {
    let h = RequestHeaders::new();
    assert!(detect_vpn(&h, "172.16.0.1"));
    assert!(detect_vpn(&h, "10.1.2.3"));
    assert!(detect_vpn(&h, "192.168.0.1"));
    assert!(!detect_vpn(&h, "203.0.113.9"));
}

#[test]
fn vpn_heuristic_headers() {
    assert!(detect_vpn(&headers_of(&[("X-VPN", "yes")]), "203.0.113.9"));
    assert!(detect_vpn(&headers_of(&[("X-Forwarded-For", "203.0.113.9")]), "203.0.113.9"));
}

#[test]
fn ip_info_gathers_every_field() {
    let mut h = headers_of(&[
        ("User-Agent", "Mozilla/5.0 (iPad)"),
        ("Accept", "text/html"),
        ("Accept", "application/json"),
    ]);
    h.push("X-Binary", None);
    h.push("X-Tor", Some("1"));
    let info = build_ip_info(&h, "203.0.113.9", None);
    assert_eq!(info.ip, "203.0.113.9");
    assert_eq!(info.user_agent, "Mozilla/5.0 (iPad)");
    assert_eq!(
        info.headers,
        vec![
            ("User-Agent".to_string(), "Mozilla/5.0 (iPad)".to_string()),
            ("Accept".to_string(), "text/html".to_string()),
            ("Accept".to_string(), "application/json".to_string()),
            ("X-Tor".to_string(), "1".to_string()),
        ]
    );
    assert!(info.geo.is_none());
    assert_eq!(info.connection_type, "Direct");
    assert!(info.is_mobile);
    assert!(info.is_tor);
    assert!(!info.is_vpn);
}

#[test]
fn ip_info_without_user_agent() {
    let h = headers_of(&[("X-Forwarded-For", "172.20.0.4, 10.0.0.1")]);
    let info = build_ip_info(&h, "203.0.113.9", None);
    assert_eq!(info.ip, "172.20.0.4");
    assert_eq!(info.user_agent, "Unknown");
    assert_eq!(info.connection_type, "Forwarded");
    assert!(!info.is_mobile);
    assert!(!info.is_tor);
    assert!(info.is_vpn);
}
