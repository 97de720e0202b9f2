use cfdns::config::{Cloudflare, Config, Interface, Record, TypeOptions};

#[test]
fn kinds_require_their_families() {
    assert!(TypeOptions::A.requires_v4());
    assert!(!TypeOptions::A.requires_v6());
    assert!(!TypeOptions::AAAA.requires_v4());
    assert!(TypeOptions::AAAA.requires_v6());
    assert!(TypeOptions::Both.requires_v4());
    assert!(TypeOptions::Both.requires_v6());
}

#[test]
fn kind_labels() {
    assert_eq!(TypeOptions::A.label(), "IPv4");
    assert_eq!(TypeOptions::AAAA.label(), "IPv6");
    assert_eq!(TypeOptions::Both.label(), "IPv4+IPv6");
}

#[test]
fn new_config_is_empty_and_bound_to_its_path() {
    let config = Config::new_at_path("/tmp/cfg.yml");
    assert_eq!(config.path(), "/tmp/cfg.yml");
    assert_eq!(config.cloudflare.token, "");
    assert!(config.interfaces.is_empty());
}

#[test]
fn assembled_config_keeps_its_parts() {
    let record = Record {
        domain: "host.example.com".to_owned(),
        zone: "example.com".to_owned(),
        kind: TypeOptions::Both,
        web_lookup: true,
    };
    let interfaces = vec![("eth0".to_owned(), Interface { records: vec![record] })];
    let config = Config::assembled(
        Cloudflare { token: "test-token".to_owned() },
        interfaces,
        "/etc/cfdns/config.yml",
    );
    assert_eq!(config.path(), "/etc/cfdns/config.yml");
    assert_eq!(config.cloudflare.token, "test-token");
    assert_eq!(config.interfaces.len(), 1);
    assert_eq!(config.interfaces[0].0, "eth0");
    let r = &config.interfaces[0].1.records[0];
    assert_eq!(r.domain, "host.example.com");
    assert_eq!(r.zone, "example.com");
    assert_eq!(r.kind, TypeOptions::Both);
    assert!(r.web_lookup);
}
