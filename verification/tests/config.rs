use sentry_tunneler::config::TunnelConfig;

#[test]
fn unset_environment_gives_defaults() {
    let cfg = TunnelConfig::from_env_values(None, None, None, None, None);
    assert!(cfg.sentry_hosts.is_none());
    assert!(cfg.allowed_project_ids.is_none());
    assert!(cfg.cors_allowed_origins.is_none());
    assert_eq!(cfg.tunnel_path, "/tunnel");
    assert_eq!(cfg.listen_port, 3000);
}

#[test]
fn unset_allowlists_allow_everything() {
    let cfg = TunnelConfig::from_env_values(None, None, None, None, None);
    assert!(cfg.is_allowed_host("anything.example.com"));
    assert!(cfg.is_allowed_project("12345"));
    assert!(cfg.is_allowed_host(""));
}

#[test]
fn host_list_is_split_and_schemes_are_stripped() {
    let cfg = TunnelConfig::from_env_values(
        Some("https://h1.example.com,http://h2.example.com,h3".to_string()),
        None,
        None,
        None,
        None,
    );
    assert_eq!(
        cfg.sentry_hosts,
        Some(vec![
            "h1.example.com".to_string(),
            "h2.example.com".to_string(),
            "h3".to_string(),
        ])
    );
    assert!(cfg.is_allowed_host("h1.example.com"));
    assert!(cfg.is_allowed_host("h2.example.com"));
    assert!(cfg.is_allowed_host("h3"));
    assert!(!cfg.is_allowed_host("https://h1.example.com"));
    assert!(!cfg.is_allowed_host("h4.example.com"));
    assert!(!cfg.is_allowed_host("h1.example.co"));
}

#[test]
fn project_list_is_split_verbatim() {
    let cfg = TunnelConfig::from_env_values(
        None,
        Some("1,2,42".to_string()),
        None,
        None,
        None,
    );
    assert_eq!(
        cfg.allowed_project_ids,
        Some(vec!["1".to_string(), "2".to_string(), "42".to_string()])
    );
    assert!(cfg.is_allowed_project("42"));
    assert!(!cfg.is_allowed_project("43"));
    assert!(!cfg.is_allowed_project(""));
}

#[test]
fn empty_list_value_gives_one_empty_entry() {
    let cfg = TunnelConfig::from_env_values(Some(String::new()), None, None, None, None);
    assert_eq!(cfg.sentry_hosts, Some(vec![String::new()]));
    assert!(cfg.is_allowed_host(""));
    assert!(!cfg.is_allowed_host("h"));
}

#[test]
fn adjacent_commas_give_empty_entries() {
    let cfg = TunnelConfig::from_env_values(None, Some("a,,b,".to_string()), None, None, None);
    assert_eq!(
        cfg.allowed_project_ids,
        Some(vec![
            "a".to_string(),
            String::new(),
            "b".to_string(),
            String::new(),
        ])
    );
}

#[test]
fn cors_origins_are_split_verbatim() {
    let cfg = TunnelConfig::from_env_values(
        None,
        None,
        Some("https://a.example.com,https://b.example.com".to_string()),
        None,
        None,
    );
    assert_eq!(
        cfg.cors_allowed_origins,
        Some(vec![
            "https://a.example.com".to_string(),
            "https://b.example.com".to_string(),
        ])
    );
}

#[test]
fn tunnel_path_is_taken_verbatim() {
    let cfg = TunnelConfig::from_env_values(None, None, None, Some("/bugs".to_string()), None);
    assert_eq!(cfg.tunnel_path, "/bugs");
}

#[test]
fn listen_port_parses_decimal() {
    let cfg = TunnelConfig::from_env_values(None, None, None, None, Some("8080".to_string()));
    assert_eq!(cfg.listen_port, 8080);
}

#[test]
fn listen_port_accepts_leading_zeroes() {
    let cfg = TunnelConfig::from_env_values(None, None, None, None, Some("0080".to_string()));
    assert_eq!(cfg.listen_port, 80);
}

#[test]
fn malformed_listen_port_falls_back_to_default() {
    for bad in ["", "not a port", "70000", "80x", "-1", " 80"] {
        let cfg = TunnelConfig::from_env_values(None, None, None, None, Some(bad.to_string()));
        assert_eq!(cfg.listen_port, 3000);
    }
}

#[test]
fn largest_port_is_kept() {
    let cfg = TunnelConfig::from_env_values(None, None, None, None, Some("65535".to_string()));
    assert_eq!(cfg.listen_port, 65535);
}
