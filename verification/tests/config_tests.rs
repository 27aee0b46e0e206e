use ssh_tailscale::config::{
    login_target, Config, CONFIG_DIR, CONFIG_FILE, CONFIG_PARENT, FALLBACK_USERNAME,
};
use ssh_tailscale::record::NodeRecord;

fn record(name: &str, ip: &str) -> NodeRecord {
    NodeRecord::new(name.to_string(), ip.to_string(), "x@".to_string(), "active".to_string())
        .unwrap()
}

#[test]
fn the_place_of_the_preferences() {
    assert_eq!(CONFIG_PARENT, ".config");
    assert_eq!(CONFIG_DIR, "ssh-tailscale");
    assert_eq!(CONFIG_FILE, "config.json");
}

#[test]
fn first_preferences_are_empty() {
    let config = Config::default();
    assert_eq!(config.default_username, "");
    assert_eq!(config.last_selected_node, "");
}

#[test]
fn the_prompt_offers_the_fallback_first() {
    assert_eq!(FALLBACK_USERNAME, "ubuntu");
    assert_eq!(Config::default().prompt_default(), "ubuntu");
}

#[test]
fn the_prompt_offers_the_kept_name() {
    let config = Config { default_username: "piotr".to_string(), last_selected_node: String::new() };
    assert_eq!(config.prompt_default(), "piotr");
}

#[test]
fn a_new_username_is_kept() {
    let mut config = Config::default();
    assert!(config.remember_username("piotr"));
    assert_eq!(config.default_username, "piotr");
    assert!(!config.remember_username("piotr"));
    assert_eq!(config.default_username, "piotr");
    assert!(config.remember_username("root"));
    assert_eq!(config.default_username, "root");
    assert_eq!(config.last_selected_node, "");
}

#[test]
fn the_fallback_is_kept_when_entered() {
    let mut config = Config::default();
    assert!(config.remember_username("ubuntu"));
    assert_eq!(config.default_username, "ubuntu");
}

#[test]
fn the_selected_node_is_kept_by_name() {
    let mut config = Config { default_username: "piotr".to_string(), last_selected_node: "old".to_string() };
    config.remember_node(&record("staging-lb-1", "100.74.180.3"));
    assert_eq!(config.last_selected_node, "staging-lb-1");
    assert_eq!(config.default_username, "piotr");
}

#[test]
fn the_login_target_names_the_address() {
    let node = record("staging-lb-1", "100.74.180.3");
    assert_eq!(login_target("piotr", &node), "piotr@100.74.180.3");
    assert_eq!(login_target("", &node), "@100.74.180.3");
}
