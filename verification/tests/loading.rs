use handyman::cli::{Cli, Command};
use handyman::check_config::{first_word, is_executable_mode};
use handyman::config::{Configuration, Handler, HealthCheckState};
use handyman::loader::{collect_configs, ConfigEntry};

fn named_config(name: &str) -> Configuration {
    Configuration::new(Some(name.to_string()), None, vec![], None)
}

#[test]
fn bad_entries_are_skipped_without_aborting_the_load() {
    let entries = vec![
        ConfigEntry::Unreadable,
        ConfigEntry::Loaded(named_config("a")),
        ConfigEntry::Directory,
        ConfigEntry::Invalid,
        ConfigEntry::Loaded(named_config("b")),
    ];
    let configs = collect_configs(entries);
    assert_eq!(configs.len(), 2);
    assert_eq!(configs[0].name(), Some("a"));
    assert_eq!(configs[1].name(), Some("b"));
}

#[test]
fn no_entries_no_configs() {
    assert!(collect_configs(vec![]).is_empty());
}

#[test]
fn only_bad_entries_no_configs() {
    let entries = vec![ConfigEntry::Invalid, ConfigEntry::Directory, ConfigEntry::Unreadable];
    assert!(collect_configs(entries).is_empty());
}

#[test]
fn first_word_takes_the_command_name() {
    assert_eq!(first_word("echo hello world"), Some("echo".to_string()));
    assert_eq!(first_word("  /usr/bin/env\tls"), Some("/usr/bin/env".to_string()));
    assert_eq!(first_word("true"), Some("true".to_string()));
}

#[test]
fn blank_commands_have_no_word() {
    assert_eq!(first_word(""), None);
    assert_eq!(first_word("   \t\n"), None);
}

#[test]
fn executable_modes() {
    assert!(is_executable_mode(0o755));
    assert!(is_executable_mode(0o100));
    assert!(is_executable_mode(0o010));
    assert!(is_executable_mode(0o001));
    assert!(!is_executable_mode(0o644));
    assert!(!is_executable_mode(0o000));
}

#[test]
fn handler_getters_report_the_declared_fields() {
    let handler = Handler::new(
        Some("test".to_string()),
        "echo".to_string(),
        HealthCheckState::Passed,
        Some(10),
    );
    assert_eq!(handler.name(), Some("test"));
    assert_eq!(handler.command(), "echo");
    assert_eq!(handler.state(), HealthCheckState::Passed);
    assert_eq!(handler.timeout(), Some(10));

    let bare = Handler::new(None, "true".to_string(), HealthCheckState::Failed, None);
    assert_eq!(bare.name(), None);
    assert_eq!(bare.timeout(), None);
}

#[test]
fn configuration_getters_report_the_declared_fields() {
    let config = Configuration::new(
        Some("svc".to_string()),
        Some(30),
        vec![Handler::new(None, "true".to_string(), HealthCheckState::Passed, None)],
        None,
    );
    assert_eq!(config.name(), Some("svc"));
    assert_eq!(config.interval(), Some(30));
    assert_eq!(config.handlers().len(), 1);
    assert!(config.http().is_none());
}

#[test]
fn cli_holds_its_subcommand() {
    let cli = Cli::new(Command::Systemd);
    assert!(matches!(cli.command(), Command::Systemd));

    let cli = Cli::new(Command::CheckConfig {
        config: "/etc/handyman/config.d/svc.toml".to_string(),
        print_syntax: false,
    });
    match cli.command() {
        Command::CheckConfig { config, print_syntax } => {
            assert_eq!(config, "/etc/handyman/config.d/svc.toml");
            assert!(!print_syntax);
        }
        Command::Systemd => panic!("wrong subcommand"),
    }
}
