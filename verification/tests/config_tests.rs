use holos_config::cmdline::CmdLine;
use holos_config::config::{select_config_path, ModelConfig};
use holos_config::models::Model;
use holos_config::{HolosConfig, NetworkConfig, SecurityConfig, StorageConfig};

fn sample_config(usernames: Vec<String>) -> HolosConfig {
    HolosConfig {
        storage: StorageConfig {
            install_partition: Some("/dev/sda1".to_string()),
            persist_partition: Some("/dev/sda2".to_string()),
        },
        network: NetworkConfig {
            nameservers: vec![],
            interfaces: vec![],
        },
        security: SecurityConfig {
            github_usernames: usernames,
            ssh_keys: vec![],
            rootpw_hash: None,
        },
    }
}

#[test]
fn test_override_path_beats_model_default() {
    let path = select_config_path(&Some("/boot/custom.yaml".to_string()), &Model::Holoport);
    assert_eq!(path, "/boot/custom.yaml");
}

#[test]
fn test_model_default_used_without_override() {
    let path = select_config_path(&None, &Model::Holoport);
    assert_eq!(path, "/etc/holos/configs/holoport.yaml");
}

#[test]
fn test_global_default_for_unknown_model() {
    let path = select_config_path(&None, &Model::Unknown);
    assert_eq!(path, "/etc/holos/configs/default.yaml");
}

#[test]
fn test_model_config_file_mapping() {
    assert_eq!(ModelConfig::config_file(&Model::Unknown), None);
    assert_eq!(
        ModelConfig::config_file(&Model::HoloportPlus),
        Some("/etc/holos/configs/holoport_plus.yaml".to_string())
    );
}

#[test]
fn test_username_override_replaces_not_merges() {
    let mut config = sample_config(vec!["x".to_string()]);
    let overrides = CmdLine::parse_line("github_usernames=y,z");
    config.apply_overrides(&overrides);
    assert_eq!(config.security.github_usernames, vec!["y", "z"]);
}

#[test]
fn test_empty_override_keeps_file_usernames() {
    let mut config = sample_config(vec!["x".to_string()]);
    let overrides = CmdLine::parse_line("root=/dev/sda1 ro quiet");
    config.apply_overrides(&overrides);
    assert_eq!(config.security.github_usernames, vec!["x"]);
}

#[test]
fn test_override_leaves_other_fields_alone() {
    let mut config = sample_config(vec!["x".to_string()]);
    config.security.ssh_keys = vec!["ssh-ed25519 AAA key".to_string()];
    let overrides = CmdLine::parse_line("github_usernames=y install");
    config.apply_overrides(&overrides);
    assert_eq!(config.storage.install_partition, Some("/dev/sda1".to_string()));
    assert_eq!(config.storage.persist_partition, Some("/dev/sda2".to_string()));
    assert_eq!(config.security.ssh_keys, vec!["ssh-ed25519 AAA key"]);
    assert_eq!(config.security.rootpw_hash, None);
    assert_eq!(config.security.github_usernames, vec!["y"]);
}
