use uptime_monitor::config::{
    Config, Protocol, SystemConfig, DEFAULT_CHECK_INTERVAL_SECONDS, DEFAULT_TIMEOUT_SECONDS,
};

fn target(name: &str, host: &str, port: Option<u16>, protocol: Protocol) -> SystemConfig {
    SystemConfig::new(name.to_string(), host.to_string(), port, protocol)
}

#[test]
fn test_config_creation() {
    let config = Config::default();
    assert_eq!(config.systems.len(), 0);
}

#[test]
fn default_config_has_standard_timing() {
    let config = Config::default();
    assert_eq!(config.check_interval_seconds, 30);
    assert_eq!(config.timeout_seconds, 5);
    assert_eq!(DEFAULT_CHECK_INTERVAL_SECONDS, 30);
    assert_eq!(DEFAULT_TIMEOUT_SECONDS, 5);
}

#[test]
fn starter_config_lists_three_targets() {
    let config = Config::create_default_config();
    assert_eq!(config.systems.len(), 3);
    assert_eq!(config.check_interval_seconds, 30);
    assert_eq!(config.timeout_seconds, 5);

    assert_eq!(config.systems[0].name, "Google DNS");
    assert_eq!(config.systems[0].host, "8.8.8.8");
    assert_eq!(config.systems[0].port, None);
    assert_eq!(config.systems[0].protocol, Protocol::Ping);
    assert!(config.systems[0].enabled);

    assert_eq!(config.systems[1].name, "Cloudflare DNS");
    assert_eq!(config.systems[1].host, "1.1.1.1");
    assert_eq!(config.systems[1].port, None);
    assert_eq!(config.systems[1].protocol, Protocol::Ping);
    assert!(config.systems[1].enabled);

    assert_eq!(config.systems[2].name, "Local HTTP");
    assert_eq!(config.systems[2].host, "127.0.0.1");
    assert_eq!(config.systems[2].port, Some(80));
    assert_eq!(config.systems[2].protocol, Protocol::Tcp);
    assert!(!config.systems[2].enabled);
}

#[test]
fn new_target_is_enabled() {
    let t = target("db", "10.0.0.7", Some(5432), Protocol::Tcp);
    assert_eq!(t.name, "db");
    assert_eq!(t.host, "10.0.0.7");
    assert_eq!(t.port, Some(5432));
    assert_eq!(t.protocol, Protocol::Tcp);
    assert!(t.enabled);
}

#[test]
fn add_system_appends() {
    let mut config = Config::default();
    config.add_system(target("a", "h1", None, Protocol::Ping));
    config.add_system(target("b", "h2", Some(53), Protocol::Udp));
    assert_eq!(config.systems.len(), 2);
    assert_eq!(config.systems[0], target("a", "h1", None, Protocol::Ping));
    assert_eq!(config.systems[1], target("b", "h2", Some(53), Protocol::Udp));
    assert_eq!(config.check_interval_seconds, 30);
    assert_eq!(config.timeout_seconds, 5);
}

#[test]
fn remove_system_takes_out_the_indexed_target() {
    let mut config = Config::create_default_config();
    config.remove_system(1);
    assert_eq!(config.systems.len(), 2);
    assert_eq!(config.systems[0].name, "Google DNS");
    assert_eq!(config.systems[1].name, "Local HTTP");
}

#[test]
fn remove_system_past_the_end_changes_nothing() {
    let mut config = Config::create_default_config();
    config.remove_system(3);
    assert_eq!(config, Config::create_default_config());
    config.remove_system(usize::MAX);
    assert_eq!(config, Config::create_default_config());
    let mut empty = Config::default();
    empty.remove_system(0);
    assert_eq!(empty, Config::default());
}

#[test]
fn update_system_replaces_the_indexed_target() {
    let mut config = Config::create_default_config();
    config.update_system(2, target("Local HTTPS", "127.0.0.1", Some(443), Protocol::Tcp));
    assert_eq!(config.systems.len(), 3);
    assert_eq!(config.systems[0].name, "Google DNS");
    assert_eq!(config.systems[1].name, "Cloudflare DNS");
    assert_eq!(config.systems[2], target("Local HTTPS", "127.0.0.1", Some(443), Protocol::Tcp));
}

#[test]
fn update_system_past_the_end_changes_nothing() {
    let mut config = Config::create_default_config();
    config.update_system(3, target("x", "y", None, Protocol::Ping));
    assert_eq!(config, Config::create_default_config());
}

#[test]
fn protocol_labels_are_upper_case() {
    assert_eq!(Protocol::Ping.label(), "PING");
    assert_eq!(Protocol::Tcp.label(), "TCP");
    assert_eq!(Protocol::Udp.label(), "UDP");
}

#[test]
fn clones_are_equal_and_independent() {
    let config = Config::create_default_config();
    let mut copy = config.clone();
    assert_eq!(copy, config);
    copy.remove_system(0);
    assert_eq!(config.systems.len(), 3);
    assert_eq!(copy.systems.len(), 2);
    let t = target("a", "b", Some(1), Protocol::Udp);
    assert_eq!(t.clone(), t);
}
