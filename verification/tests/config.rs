use civet::config::{config_to_options, Config};

#[test]
fn port_and_threads_serialize_in_order() {
    let mut cfg = Config::new();
    cfg.port(8888);
    cfg.threads(1);
    let opts = config_to_options(&cfg);
    assert_eq!(opts, vec!["listening_ports", "8888", "num_threads", "1"]);
}

#[test]
fn empty_config_serializes_to_nothing() {
    let cfg = Config::new();
    assert!(config_to_options(&cfg).is_empty());
}

#[test]
fn unset_options_are_omitted() {
    let mut cfg = Config::new();
    cfg.threads(4);
    assert_eq!(config_to_options(&cfg), vec!["num_threads", "4"]);

    let mut cfg = Config::new();
    cfg.port(80);
    assert_eq!(config_to_options(&cfg), vec!["listening_ports", "80"]);
}

#[test]
fn keep_alive_serializes_yes_or_no() {
    let mut cfg = Config::new();
    cfg.keep_alive(true);
    assert_eq!(config_to_options(&cfg), vec!["enable_keep_alive", "yes"]);

    let mut cfg = Config::new();
    cfg.keep_alive(false);
    assert_eq!(config_to_options(&cfg), vec!["enable_keep_alive", "no"]);
}

#[test]
fn full_config_serializes_all_three() {
    let mut cfg = Config::new();
    cfg.port(65535);
    cfg.threads(50);
    cfg.keep_alive(true);
    assert_eq!(
        config_to_options(&cfg),
        vec!["listening_ports", "65535", "num_threads", "50", "enable_keep_alive", "yes"]
    );
}

#[test]
fn default_config_is_port_8888_with_50_threads() {
    let cfg = Config::default();
    assert_eq!(
        config_to_options(&cfg),
        vec!["listening_ports", "8888", "num_threads", "50"]
    );
}

#[test]
fn later_settings_overwrite_earlier_ones() {
    let mut cfg = Config::new();
    cfg.port(80);
    cfg.port(8080);
    assert_eq!(config_to_options(&cfg), vec!["listening_ports", "8080"]);
}
