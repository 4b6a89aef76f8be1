use rs_rok_cli::cli::{Cli, Command, ConfigAction, RunMode};
use rs_rok_cli::config::{Profile, Settings};

fn cli(command: Option<Command>) -> Cli {
    Cli { config_path: None, log_level: "info".to_string(), profile: None, command }
}

#[test]
fn run_mode_depends_on_subcommand_and_terminal() {
    assert_eq!(cli(None).run_mode(true), RunMode::Interactive);
    assert_eq!(cli(None).run_mode(false), RunMode::Help);
    let c = cli(Some(Command::Config { action: ConfigAction::Show }));
    assert_eq!(c.run_mode(true), RunMode::Subcommand);
    assert_eq!(c.run_mode(false), RunMode::Subcommand);
}

#[test]
fn config_actions_edit_the_active_profile() {
    let mut s = Settings::default();
    s.profiles.push(Profile::new("b", "http://b"));
    s.switch_active(1);
    assert!(s.apply_config_action(ConfigAction::AddToken { token: "tok".to_string() }));
    assert_eq!(s.profiles[1].auth_token.as_deref(), Some("tok"));
    assert!(s.profiles[0].auth_token.is_none());
    assert!(s.apply_config_action(ConfigAction::SetEndpoint { url: "https://u.dev".to_string() }));
    assert_eq!(s.profiles[1].endpoint, "https://u.dev");
    assert!(!s.apply_config_action(ConfigAction::Show));
    assert!(!s.apply_config_action(ConfigAction::SetCfCredentials {
        account_id: "1".to_string(),
        api_token: "t".to_string(),
    }));
    assert_eq!(s.profiles[1].endpoint, "https://u.dev");
}

#[test]
fn tcp_tunnels_need_a_name() {
    let unnamed = Command::Tcp { port: 5432, name: None, host: "localhost".to_string() };
    assert!(unnamed.lacks_tcp_name());
    let named = Command::Tcp { port: 5432, name: Some("mydb".to_string()), host: "localhost".to_string() };
    assert!(!named.lacks_tcp_name());
    let http = Command::Http { port: 80, name: None, host: "localhost".to_string() };
    assert!(!http.lacks_tcp_name());
}
