use exa_pay::panel::{is_active, Node, Subscription, UserKeys};
use exa_pay::subscription::{config_format, generate_v2ray_config, v2ray_links, vless_link, ConfigFormat};

fn node(name: &str, domain: Option<&str>) -> Node {
    Node {
        id: 1,
        name: name.to_string(),
        ip: "10.0.0.1".to_string(),
        vpn_port: 443,
        reality_pub: Some("PBK".to_string()),
        short_id: None,
        domain: domain.map(|d| d.to_string()),
        country_code: None,
    }
}

fn keys() -> UserKeys {
    UserKeys { user_uuid: "uuid-1".to_string(), hy2_password: "pw".to_string() }
}

#[test]
fn client_formats() {
    assert_eq!(config_format(Some("clash")), ConfigFormat::Clash);
    assert_eq!(config_format(Some("v2ray")), ConfigFormat::V2ray);
    assert_eq!(config_format(Some("singbox")), ConfigFormat::Singbox);
    assert_eq!(config_format(Some("other")), ConfigFormat::Singbox);
    assert_eq!(config_format(None), ConfigFormat::Singbox);
}

#[test]
fn single_link() {
    let l = vless_link(&node("DE 1", None), &keys(), "DE%201%20VLESS");
    assert_eq!(
        l,
        "vless://uuid-1@10.0.0.1:443?encryption=none&flow=xtls-rprx-vision&security=reality&sni=www.google.com&fp=chrome&pbk=PBK&sid=&type=tcp#DE%201%20VLESS"
    );
}

#[test]
fn links_are_encoded_and_joined() {
    let nodes = vec![node("DE 1", Some("de.example")), node("NL", None)];
    let text = v2ray_links(&nodes, &keys());
    let lines: Vec<&str> = text.split('\n').collect();
    assert_eq!(lines.len(), 2);
    assert!(lines[0].ends_with("#DE%201%20VLESS"));
    assert!(lines[0].contains("sni=de.example"));
    assert!(lines[1].ends_with("#NL%20VLESS"));
    let b64 = generate_v2ray_config(&nodes[..1].to_vec(), &keys());
    assert_ne!(b64, v2ray_links(&nodes[..1].to_vec(), &keys()));
    assert!(b64.starts_with("dmxlc3M6Ly91dWlkLTFAMTAuMC4wLjE6NDQz"));
}

#[test]
fn active_subscriptions() {
    let mut s = Subscription {
        id: 1,
        user_id: 2,
        status: "active".to_string(),
        used_traffic: 0,
        subscription_uuid: "u".to_string(),
    };
    assert!(is_active(&s));
    s.status = "expired".to_string();
    assert!(!is_active(&s));
}
