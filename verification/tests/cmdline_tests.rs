use holos_config::cmdline::CmdLine;

const CMDLINE_WITH_CONFIG_FILE: &str =
    "root=/dev/sda1 ro quiet -- config_file=/etc/holos/configs/holoport.yaml";
const CMDLINE_WITH_GITHUB_USERS: &str =
    "root=LABEL=holos_root ro crashkernel=xxx,yyy github_usernames=username1,username2";
const CMDLINE_WITH_INSTALL_FLAG: &str = "root=LABEL=holos_root ro -- install";

#[test]
fn test_config_file() {
    let overrides = CmdLine::parse_line(CMDLINE_WITH_CONFIG_FILE);
    assert_eq!(
        overrides.config_file,
        Some("/etc/holos/configs/holoport.yaml".to_string())
    );
}

#[test]
fn test_github_users() {
    let overrides = CmdLine::parse_line(CMDLINE_WITH_GITHUB_USERS);
    assert_eq!(overrides.github_usernames, vec!["username1", "username2"]);
}

#[test]
fn test_install_flag() {
    let overrides = CmdLine::parse_line(CMDLINE_WITH_INSTALL_FLAG);
    assert_eq!(overrides.install_flag, true);
}

#[test]
fn test_no_install_flag() {
    let overrides = CmdLine::parse_line(CMDLINE_WITH_GITHUB_USERS);
    assert_eq!(overrides.install_flag, false);
}

#[test]
fn test_parse_idempotent() {
    let a = CmdLine::parse_line(CMDLINE_WITH_GITHUB_USERS);
    let b = CmdLine::parse_line(CMDLINE_WITH_GITHUB_USERS);
    assert_eq!(a.config_file, b.config_file);
    assert_eq!(a.github_usernames, b.github_usernames);
    assert_eq!(a.install_flag, b.install_flag);
    assert_eq!(a.live_flag, b.live_flag);
}

#[test]
fn test_github_users_ordered() {
    let overrides = CmdLine::parse_line("github_usernames=a,b,c");
    assert_eq!(overrides.github_usernames, vec!["a", "b", "c"]);
}

#[test]
fn test_github_users_absent_is_empty() {
    let overrides = CmdLine::parse_line("root=/dev/sda1 ro quiet");
    assert!(overrides.github_usernames.is_empty());
}

#[test]
fn test_empty_line_gives_zero_values() {
    let overrides = CmdLine::parse_line("");
    assert_eq!(overrides.config_file, None);
    assert!(overrides.github_usernames.is_empty());
    assert_eq!(overrides.install_flag, false);
    assert_eq!(overrides.live_flag, false);
}

#[test]
fn test_live_flag() {
    let overrides = CmdLine::parse_line("root=/dev/sda1 live");
    assert_eq!(overrides.live_flag, true);
    assert_eq!(overrides.install_flag, false);
}

#[test]
fn test_last_config_file_wins() {
    let overrides = CmdLine::parse_line("config_file=/a.yaml config_file=/b.yaml");
    assert_eq!(overrides.config_file, Some("/b.yaml".to_string()));
}

#[test]
fn test_last_username_list_replaces_prior() {
    let overrides = CmdLine::parse_line("github_usernames=a,b github_usernames=c");
    assert_eq!(overrides.github_usernames, vec!["c"]);
}

#[test]
fn test_unrecognized_tokens_ignored() {
    let overrides = CmdLine::parse_line("quiet splash installx config_file");
    assert_eq!(overrides.config_file, None);
    assert_eq!(overrides.install_flag, false);
    assert!(overrides.github_usernames.is_empty());
}
