use rs_rok_cli::cloudflare_config::CfAccount;
use rs_rok_cli::config::{Profile, Settings};
use rs_rok_cli::saved_tunnels::{SavedTunnelState, SavedTunnelType};
use rs_rok_cli::tui::app::{
    chrono_now, clock_text, App, DeployForm, EndpointTestForm, Focus, LogStyle, NewTunnelForm,
    Overlay, SettingsForm, TunnelHandle, TunnelStatus, TunnelTypeOption, MAX_LOG_LINES,
};
use rs_rok_cli::tui::dispatch::{DeployOutcome, Effect};
use rs_rok_cli::tui::events::{handle_key, key_verdict, Action, Key, KeyVerdict, TunnelEvent};
use rs_rok_cli::tui::layout::{account_label, masked, popup_rect, scroll_start, status_class, Rect, StatusClass};
use rs_rok_cli::tui::log_view::split_to_width;
use rs_rok_cli::tui::session::split_local_addr;
use rs_rok_cli::tunnel::{TunnelConfig, TunnelType};

fn acc(name: &str, id: &str, tok: &str) -> CfAccount {
    CfAccount { name: name.to_string(), account_id: id.to_string(), api_token: tok.to_string() }
}

fn config(addr: &str) -> TunnelConfig {
    TunnelConfig {
        endpoint: "http://localhost:8787".to_string(),
        auth_token: String::new(),
        tunnel_type: TunnelType::Http,
        local_addr: addr.to_string(),
        name: None,
        tcp_token: None,
    }
}

fn app_with_tunnels(n: usize) -> App {
    let mut app = App::new(Settings::default());
    for i in 0..n {
        app.spawn_tunnel(config(&format!("localhost:{}", 3000 + i)), Some("default".to_string()));
    }
    app
}

fn press(app: &mut App, key: Key) -> Action {
    handle_key(app, key, &Vec::new())
}

#[test]
fn tunnel_type_option_cycles() {
    assert_eq!(TunnelTypeOption::Http.label(), "HTTP");
    assert_eq!(TunnelTypeOption::Https.label(), "HTTPS");
    assert_eq!(TunnelTypeOption::Tcp.label(), "TCP");
    assert_eq!(TunnelTypeOption::Http.next(), TunnelTypeOption::Https);
    assert_eq!(TunnelTypeOption::Tcp.next(), TunnelTypeOption::Http);
    assert_eq!(TunnelTypeOption::Http.prev(), TunnelTypeOption::Tcp);
    for t in [TunnelTypeOption::Http, TunnelTypeOption::Https, TunnelTypeOption::Tcp] {
        assert_eq!(t.next().prev(), t);
        assert_eq!(t.next().next().next(), t);
    }
    assert_eq!(TunnelTypeOption::Tcp.tunnel_type(), TunnelType::Tcp);
}

#[test]
fn new_tunnel_form_focus_wraps() {
    let mut f = NewTunnelForm::new(2);
    assert_eq!(f.profile_idx, 2);
    assert_eq!(f.host, "localhost");
    assert_eq!(f.focused_field, 0);
    f.focus_prev();
    assert_eq!(f.focused_field, 4);
    f.focus_next();
    assert_eq!(f.focused_field, 0);
}

#[test]
fn settings_form_rows() {
    let profiles = vec![Profile::default_profile()];
    let mut f = SettingsForm::new(&profiles, 0, vec![acc("a", "1", "t")]);
    assert_eq!(f.cf_selector_idx(), 5);
    assert_eq!(f.cf_fields_start(), 6);
    assert_eq!(f.total_rows(), 9);
    assert!(f.on_profile_selector());
    f.focus_prev();
    assert_eq!(f.focused_field, 8);
    assert!(f.on_cf_field());
    assert_eq!(f.cf_field_idx(), 2);
    f.focused_field = 5;
    assert!(f.on_cf_selector());
    f.focused_field = 2;
    assert!(f.on_profile_field());
    assert_eq!(f.profile_field_idx(), 1);
    assert_eq!(f.profile_fields[1].1, "http://localhost:8787");
    assert_eq!(f.cf_fields[1], ("Account ID".to_string(), "1".to_string()));
}

#[test]
fn settings_form_round_trips_profile_and_account() {
    let mut p = Profile::new("x", "http://x");
    p.auth_token = Some("tok".to_string());
    let profiles = vec![p];
    let f = SettingsForm::new(&profiles, 0, vec![acc("a", "1", "t")]);
    let mut q = Profile::new("x", "http://x");
    q.auth_token = Some("tok".to_string());
    f.apply_to_profile(&mut q);
    assert_eq!(q.name, "x");
    assert_eq!(q.endpoint, "http://x");
    assert_eq!(q.auth_token.as_deref(), Some("tok"));
    let a = f.apply_to_cf_account().unwrap();
    assert_eq!((a.name.as_str(), a.account_id.as_str(), a.api_token.as_str()), ("a", "1", "t"));
}

#[test]
fn settings_form_empty_token_field_clears_token() {
    let profiles = vec![Profile::default_profile()];
    let mut f = SettingsForm::new(&profiles, 0, Vec::new());
    let mut q = Profile::default_profile();
    q.auth_token = Some("old".to_string());
    f.apply_to_profile(&mut q);
    assert!(q.auth_token.is_none());
    // No accounts and all fields empty: nothing to save.
    assert!(f.apply_to_cf_account().is_none());
    f.cf_fields[0].1 = "named".to_string();
    assert_eq!(f.apply_to_cf_account().unwrap().name, "named");
}

#[test]
fn settings_form_reloads() {
    let profiles = vec![Profile::default_profile(), Profile::new("b", "http://b")];
    let mut f = SettingsForm::new(&profiles, 0, vec![acc("a", "1", "t"), acc("b", "2", "u")]);
    f.load_profile(&profiles[1]);
    assert_eq!(f.profile_fields[0].1, "b");
    f.cf_account_idx = 1;
    f.load_cf_account();
    assert_eq!(f.cf_fields[2].1, "u");
    f.cf_account_idx = 2;
    f.load_cf_account();
    assert_eq!(f.cf_fields[2].1, "");
}

#[test]
fn deploy_form_selection() {
    let f = DeployForm::new("tok".to_string(), vec![acc("a", "1", "t")]);
    assert_eq!(f.worker_name, "");
    assert_eq!(f.auth_token, "tok");
    assert_eq!(f.active_account().unwrap().account_id, "1");
    let g = DeployForm::new(String::new(), Vec::new());
    assert!(g.active_account().is_none());
}

#[test]
fn endpoint_test_form_navigation() {
    let mut f = EndpointTestForm::new();
    assert_eq!(f.method(), "GET");
    assert_eq!(f.path, "/");
    assert_eq!(f.total_fields(), 9);
    assert_eq!(f.focused_field, 1);
    assert_eq!(f.focused_header(), None);
    f.focus_prev();
    f.focus_prev();
    assert_eq!(f.focused_field, 8);
    assert_eq!(f.focused_header(), Some((2, true)));
    f.focus_next();
    assert_eq!(f.focused_field, 0);
    f.focused_field = 5;
    assert_eq!(f.focused_header(), Some((1, false)));
    f.http_method_idx = 4;
    assert_eq!(f.method(), "PATCH");
}

#[test]
fn clock_texts() {
    assert_eq!(clock_text(0), "00:00:00");
    assert_eq!(clock_text(3661), "01:01:01");
    assert_eq!(clock_text(86399), "23:59:59");
    assert_eq!(clock_text(86400 + 45), "00:00:45");
    let now = chrono_now();
    assert_eq!(now.len(), 8);
    assert_eq!(&now[2..3], ":");
    assert_eq!(&now[5..6], ":");
}

#[test]
fn tunnel_events_are_logged() {
    let mut t = TunnelHandle::new(config("localhost:3000"), TunnelStatus::Connecting, None);
    assert_eq!(t.name, ":3000");
    assert_eq!(t.config_summary, "HTTP localhost:3000");
    t.record_event(TunnelEvent::Connected { url: "https://x.dev/t".to_string() }, "10:00:00".to_string());
    assert_eq!(t.status, TunnelStatus::Active);
    assert_eq!(t.public_url.as_deref(), Some("https://x.dev/t"));
    assert_eq!(t.logs.back().unwrap().text, "Connected: https://x.dev/t");
    t.record_event(
        TunnelEvent::Request { method: "GET".to_string(), path: "/a".to_string(), status: 404, latency_ms: 12 },
        "10:00:01".to_string(),
    );
    assert_eq!(t.logs.len(), 3);
    assert_eq!(t.logs[1].text, "GET    /a");
    assert_eq!(t.logs[1].style, LogStyle::Out);
    assert_eq!(t.logs[2].text, "404  12ms");
    assert_eq!(t.logs[2].style, LogStyle::OutError);
    t.record_event(
        TunnelEvent::TestResult { status: 200, latency_ms: 5, body_snippet: "ok".to_string() },
        "10:00:02".to_string(),
    );
    assert_eq!(t.logs.back().unwrap().text, "TEST 200  5ms  ok");
    assert_eq!(t.logs.back().unwrap().style, LogStyle::In);
    assert_eq!(t.test_result.as_ref().unwrap().status, 200);
    t.record_event(TunnelEvent::Error("boom".to_string()), "10:00:03".to_string());
    assert_eq!(t.status, TunnelStatus::Stopped);
    assert_eq!(t.logs.back().unwrap().text, "Error: boom");
    assert_eq!(t.logs.back().unwrap().style, LogStyle::Error);
    t.record_event(TunnelEvent::Disconnected { reason: "bye".to_string() }, "10:00:04".to_string());
    assert_eq!(t.logs.back().unwrap().text, "Disconnected: bye");
}

#[test]
fn log_keeps_only_the_newest_lines() {
    let mut t = TunnelHandle::new(config("h:1"), TunnelStatus::Active, None);
    for i in 0..(MAX_LOG_LINES + 5) {
        t.record_event(TunnelEvent::Error(format!("{i}")), "t".to_string());
    }
    assert_eq!(t.logs.len(), MAX_LOG_LINES);
    assert_eq!(t.logs.front().unwrap().text, "Error: 5");
    assert_eq!(t.logs.back().unwrap().text, format!("Error: {}", MAX_LOG_LINES + 4));
}

#[test]
fn selection_moves_cyclically() {
    let mut app = app_with_tunnels(3);
    assert_eq!(app.selected_tunnel, 2);
    app.next_tunnel();
    assert_eq!(app.selected_tunnel, 0);
    app.prev_tunnel();
    assert_eq!(app.selected_tunnel, 2);
    app.prev_tunnel();
    app.next_tunnel();
    assert_eq!(app.selected_tunnel, 2);
    let mut empty = App::new(Settings::default());
    empty.next_tunnel();
    assert_eq!(empty.selected_tunnel, 0);
}

#[test]
fn stop_restart_delete() {
    let mut app = app_with_tunnels(2);
    app.stop_tunnel(0);
    assert_eq!(app.tunnels[0].status, TunnelStatus::Stopped);
    assert_eq!(app.tunnels[0].logs.back().unwrap().text, "Tunnel stopped");
    app.restart_tunnel(0);
    assert_eq!(app.tunnels[0].status, TunnelStatus::Connecting);
    assert_eq!(app.tunnels[0].logs.back().unwrap().text, "Tunnel restarted");
    app.delete_tunnel(1);
    assert_eq!(app.tunnels.len(), 1);
    assert_eq!(app.selected_tunnel, 0);
    app.delete_tunnel(7);
    assert_eq!(app.tunnels.len(), 1);
    app.stop_all_tunnels();
    assert!(app.tunnels.iter().all(|t| t.status == TunnelStatus::Stopped));
}

#[test]
fn main_keys() {
    let mut app = app_with_tunnels(2);
    assert!(matches!(press(&mut app, Key::Char('q')), Action::Quit));
    assert!(matches!(press(&mut app, Key::Char('d')), Action::StopTunnel(1)));
    assert!(matches!(press(&mut app, Key::Char('x')), Action::DeleteTunnel(1)));
    // Only a stopped tunnel restarts.
    assert!(matches!(press(&mut app, Key::Char('r')), Action::Nothing));
    app.stop_tunnel(1);
    assert!(matches!(press(&mut app, Key::Char('r')), Action::StartTunnel(1)));
    assert!(matches!(press(&mut app, Key::Tab), Action::Nothing));
    assert_eq!(app.focus, Focus::Logs);
    press(&mut app, Key::Down);
    assert_eq!(app.tunnels[1].scroll_offset, 1);
    assert!(!app.tunnels[1].auto_scroll);
    press(&mut app, Key::Tab);
    press(&mut app, Key::Down);
    assert_eq!(app.selected_tunnel, 0);
    assert!(matches!(press(&mut app, Key::Char('n')), Action::OpenOverlay(Overlay::NewTunnel)));
}

#[test]
fn new_tunnel_form_spawns_with_selected_profile() {
    let mut settings = Settings::default();
    settings.profiles.push(Profile::new("staging", "https://staging.dev"));
    let mut app = App::new(settings);
    let a = press(&mut app, Key::Char('n'));
    app.apply_action(a);
    assert_eq!(app.overlay, Some(Overlay::NewTunnel));
    press(&mut app, Key::Right); // profile 1
    press(&mut app, Key::Down); // type
    press(&mut app, Key::Down); // port
    // Enter with an empty port keeps the form.
    assert!(matches!(press(&mut app, Key::Enter), Action::Nothing));
    for c in ['8', 'x', '0', '8', '0'] {
        press(&mut app, Key::Char(c));
    }
    assert_eq!(app.new_tunnel_form.port, "8080");
    press(&mut app, Key::Down); // name
    for c in ['a', '/', 'b'] {
        press(&mut app, Key::Char(c));
    }
    assert_eq!(app.new_tunnel_form.name, "ab");
    match press(&mut app, Key::Enter) {
        Action::SpawnTunnel(c, profile) => {
            assert_eq!(profile, "staging");
            assert_eq!(c.endpoint, "https://staging.dev");
            assert_eq!(c.local_addr, "localhost:8080");
            assert_eq!(c.name.as_deref(), Some("ab"));
            assert_eq!(c.tunnel_type, TunnelType::Http);
            assert!(c.tcp_token.is_none());
            let effect = app.apply_action(Action::SpawnTunnel(c, profile));
            assert!(matches!(effect, Effect::StartTask(0)));
            assert_eq!(app.tunnels.len(), 1);
            assert_eq!(app.tunnels[0].profile_name.as_deref(), Some("staging"));
            assert_eq!(app.overlay, None);
        }
        other => panic!("expected a spawn, got {other:?}"),
    }
}

#[test]
fn tcp_tunnel_gets_a_token() {
    let mut app = App::new(Settings::default());
    let a = press(&mut app, Key::Char('n'));
    app.apply_action(a);
    press(&mut app, Key::Down);
    press(&mut app, Key::Left); // Http -> Tcp
    press(&mut app, Key::Down);
    press(&mut app, Key::Char('9'));
    match press(&mut app, Key::Enter) {
        Action::SpawnTunnel(c, _) => {
            assert_eq!(c.tunnel_type, TunnelType::Tcp);
            assert_eq!(c.tcp_token.as_ref().map(|t| t.len()), Some(32));
        }
        other => panic!("expected a spawn, got {other:?}"),
    }
}

#[test]
fn port_zero_is_refused() {
    let mut app = App::new(Settings::default());
    let a = press(&mut app, Key::Char('n'));
    app.apply_action(a);
    app.new_tunnel_form.focused_field = 2;
    press(&mut app, Key::Char('0'));
    assert!(matches!(press(&mut app, Key::Enter), Action::Nothing));
}

#[test]
fn escape_closes_overlays() {
    let mut app = App::new(Settings::default());
    let a = press(&mut app, Key::Char('p'));
    assert!(matches!(a, Action::OpenOverlay(Overlay::Profiles)));
    app.apply_action(a);
    assert!(matches!(press(&mut app, Key::Esc), Action::CloseOverlay));
}

#[test]
fn finishing_a_deploy() {
    let mut app = App::new(Settings::default());
    let accounts = vec![acc("a", "1", "t")];
    let a = handle_key(&mut app, Key::Char('D'), &accounts);
    assert!(matches!(a, Action::OpenOverlay(Overlay::Deploy)));
    app.apply_action(a);
    let follow = app.finish_deploy(DeployOutcome::Failed("nope".to_string()));
    assert!(!follow.save_settings);
    assert_eq!(app.deploy_form.as_ref().unwrap().status_message.as_deref(), Some("Deploy failed: nope"));
    let follow = app.finish_deploy(DeployOutcome::Deployed("https://w.dev".to_string()));
    assert!(follow.save_settings);
    assert_eq!(app.settings.active_profile().endpoint, "https://w.dev");
    assert_eq!(app.overlay, None);
}

#[test]
fn popup_is_centred_and_clamped() {
    let area = Rect { x: 0, y: 0, width: 100, height: 40 };
    let r = popup_rect(area, 20, 5, (2, 1));
    assert_eq!(r, Rect { x: 37, y: 16, width: 26, height: 8 });
    let small = Rect { x: 10, y: 5, width: 10, height: 4 };
    let r = popup_rect(small, 50, 50, (1, 1));
    assert_eq!(r, Rect { x: 10, y: 5, width: 10, height: 4 });
}

#[test]
fn status_classes() {
    assert_eq!(status_class(200), StatusClass::Success);
    assert_eq!(status_class(301), StatusClass::Redirect);
    assert_eq!(status_class(404), StatusClass::ClientError);
    assert_eq!(status_class(503), StatusClass::ServerError);
    assert_eq!(status_class(100), StatusClass::Other);
    assert_eq!(status_class(600), StatusClass::Other);
}

#[test]
fn long_lines_wrap_at_white_space() {
    assert_eq!(split_to_width("hello world foo", 11), vec!["hello", "world foo"]);
    assert_eq!(split_to_width("hello world foo", 12), vec!["hello world", "foo"]);
    assert_eq!(split_to_width("abcdefghij", 4), vec!["abcd", "efgh", "ij"]);
    assert_eq!(split_to_width("", 4), vec![""]);
    assert_eq!(split_to_width("abc", 0), vec!["abc"]);
    assert_eq!(split_to_width("ab   cd", 3), vec!["ab", "cd"]);
    for row in split_to_width("the quick brown fox jumps over the lazy dog", 7) {
        assert!(row.chars().count() <= 7);
    }
    assert_eq!(LogStyle::In.badge(), "[IN ]");
    assert_eq!(LogStyle::System.badge(), "[---]");
}

#[test]
fn local_addresses_split_at_the_last_colon() {
    assert_eq!(split_local_addr("localhost:8080"), Some(("localhost".to_string(), 8080)));
    assert_eq!(split_local_addr("::1:22"), Some(("::1".to_string(), 22)));
    assert_eq!(split_local_addr("nohost"), None);
    assert_eq!(split_local_addr("h:99999"), None);
}

#[test]
fn session_round_trip() {
    let mut app = app_with_tunnels(2);
    app.spawn_tunnel(config("localhost:4000"), None);
    app.stop_tunnel(1);
    let saved = app.tunnels_to_save();
    // The tunnel without a profile leaves no entry.
    assert_eq!(saved.len(), 2);
    assert_eq!(saved[0].port, 3000);
    assert_eq!(saved[0].host, "localhost");
    assert_eq!(saved[0].tunnel_type, SavedTunnelType::Http);
    assert_eq!(saved[0].state, SavedTunnelState::Running);
    assert_eq!(saved[1].state, SavedTunnelState::Stopped);

    let mut fresh = App::new(Settings::default());
    fresh.restore_tunnels(&saved);
    assert_eq!(fresh.tunnels.len(), 2);
    assert_eq!(fresh.tunnels[0].status, TunnelStatus::Connecting);
    assert_eq!(fresh.tunnels[1].status, TunnelStatus::Stopped);
    assert_eq!(fresh.tunnels[0].base_config.local_addr, "localhost:3000");
    assert_eq!(fresh.tunnels[1].base_config.local_addr, "localhost:3001");
    assert_eq!(fresh.selected_tunnel, 0);

    let mut other = Settings::default();
    other.profiles[0].name = "renamed".to_string();
    let mut elsewhere = App::new(other);
    elsewhere.restore_tunnels(&saved);
    assert!(elsewhere.tunnels.is_empty());
}

#[test]
fn backspace_removes_the_last_character() {
    let mut app = App::new(Settings::default());
    let a = press(&mut app, Key::Char('n'));
    app.apply_action(a);
    app.new_tunnel_form.focused_field = 4;
    press(&mut app, Key::Backspace);
    assert_eq!(app.new_tunnel_form.host, "localhos");
    app.new_tunnel_form.focused_field = 2;
    press(&mut app, Key::Backspace);
    assert_eq!(app.new_tunnel_form.port, "");
}

#[test]
fn removing_a_profile_keeps_the_active_one() {
    let mut settings = Settings::default();
    settings.profiles.push(Profile::new("b", "http://b"));
    settings.profiles.push(Profile::new("c", "http://c"));
    settings.switch_active(2);
    let mut app = App::new(settings);
    let a = press(&mut app, Key::Char('p'));
    app.apply_action(a);
    assert_eq!(app.profiles_selected, 2);
    press(&mut app, Key::Up);
    press(&mut app, Key::Up);
    assert_eq!(app.profiles_selected, 0);
    let a = press(&mut app, Key::Char('d'));
    assert!(matches!(a, Action::SaveSettings));
    assert_eq!(app.settings.profiles.len(), 2);
    assert_eq!(app.settings.active_profile().name, "c");
    // The last profile is never removed.
    press(&mut app, Key::Char('d'));
    let a = press(&mut app, Key::Char('d'));
    assert!(matches!(a, Action::Nothing));
    assert_eq!(app.settings.profiles.len(), 1);
}

#[test]
fn masked_texts_and_labels() {
    assert_eq!(masked("abcdefg"), "abcd***");
    assert_eq!(masked("abc"), "abc");
    // Bytes are counted: "é" takes two of the four shown bytes.
    assert_eq!(masked("éabc"), "éab*");
    assert_eq!(account_label(&acc("", "ééééé", "t")), "éééé...");
    assert_eq!(account_label(&acc("named", "123456789", "t")), "named");
    assert_eq!(account_label(&acc("", "123456789", "t")), "12345678...");
    assert_eq!(account_label(&acc("", "12", "t")), "12...");
    assert_eq!(scroll_start(100, 10, true, 0), 90);
    assert_eq!(scroll_start(100, 10, false, 5), 5);
    assert_eq!(scroll_start(100, 10, false, 500), 90);
    assert_eq!(scroll_start(5, 10, true, 3), 0);
}

#[test]
fn actions_and_their_effects() {
    let mut app = app_with_tunnels(2);
    assert!(matches!(app.apply_action(Action::StopTunnel(0)), Effect::StopTask(0)));
    assert_eq!(app.tunnels[0].status, TunnelStatus::Stopped);
    assert!(matches!(app.apply_action(Action::StartTunnel(0)), Effect::RestartTask(0)));
    assert_eq!(app.tunnels[0].status, TunnelStatus::Connecting);
    assert!(matches!(app.apply_action(Action::StopTunnel(9)), Effect::Nothing));
    assert!(matches!(app.apply_action(Action::DeleteTunnel(1)), Effect::RemoveTask(1)));
    assert_eq!(app.tunnels.len(), 1);
    assert!(matches!(app.apply_action(Action::SaveSettings), Effect::SaveSettings));
    assert!(matches!(app.apply_action(Action::SaveCfAccounts), Effect::Nothing));
    assert!(matches!(app.apply_action(Action::Quit), Effect::Quit));
    assert!(matches!(app.apply_action(Action::CloseOverlay), Effect::Nothing));
    assert_eq!(app.overlay, None);

    // A test request needs the tunnel's public URL.
    let run = |idx: usize| Action::RunEndpointTest {
        tunnel_idx: idx,
        method: "GET".to_string(),
        path: "/x".to_string(),
        body: String::new(),
        headers: Vec::new(),
    };
    assert!(matches!(app.apply_action(run(0)), Effect::Nothing));
    app.record_tunnel_event(0, TunnelEvent::Connected { url: "https://t.dev".to_string() });
    match app.apply_action(run(0)) {
        Effect::SendTestRequest { tunnel_idx, base_url, path, .. } => {
            assert_eq!(tunnel_idx, 0);
            assert_eq!(base_url, "https://t.dev");
            assert_eq!(path, "/x");
        }
        other => panic!("expected a test request, got {other:?}"),
    }

    assert!(matches!(app.apply_action(Action::OpenEndpointTest(0)), Effect::Nothing));
    assert_eq!(app.overlay, Some(Overlay::EndpointTest));
    assert!(app.endpoint_test_form.is_some());

    match app.apply_action(Action::DeployWorker {
        worker_name: "w".to_string(),
        account_id: "1".to_string(),
        api_token: "t".to_string(),
        auth_token: None,
    }) {
        Effect::StartDeploy { account, worker_name, auth_token } => {
            assert_eq!(account.account_id, "1");
            assert_eq!(worker_name, "w");
            assert!(auth_token.is_none());
        }
        other => panic!("expected a deploy, got {other:?}"),
    }
    assert!(app.deploy_in_progress);
    let follow = app.finish_deploy(DeployOutcome::Lost);
    assert!(!follow.save_settings);
    assert!(follow.upsert_account.is_none());
    assert!(!app.deploy_in_progress);
}

#[test]
fn switching_profile_saves_settings() {
    let mut settings = Settings::default();
    settings.profiles.push(Profile::new("b", "http://b"));
    let mut app = App::new(settings);
    assert!(matches!(app.apply_action(Action::SwitchProfile(1)), Effect::SaveSettings));
    assert_eq!(app.settings.active_idx, 1);
    assert!(matches!(app.apply_action(Action::SwitchProfile(5)), Effect::SaveSettings));
    assert_eq!(app.settings.active_idx, 1);
}

#[test]
fn endpoint_test_result_ends_the_running_state() {
    let mut app = app_with_tunnels(1);
    app.apply_action(Action::OpenEndpointTest(0));
    app.endpoint_test_form.as_mut().unwrap().is_running = true;
    app.refresh_endpoint_test();
    assert!(app.endpoint_test_form.as_ref().unwrap().is_running);
    app.record_tunnel_event(0, TunnelEvent::TestResult { status: 200, latency_ms: 3, body_snippet: String::new() });
    app.refresh_endpoint_test();
    assert!(!app.endpoint_test_form.as_ref().unwrap().is_running);
}

#[test]
fn key_events_are_filtered() {
    assert_eq!(key_verdict(false, None, false), KeyVerdict::Ignore);
    assert_eq!(key_verdict(true, Some(10), false), KeyVerdict::Ignore);
    assert_eq!(key_verdict(true, Some(29), true), KeyVerdict::Ignore);
    assert_eq!(key_verdict(true, Some(30), false), KeyVerdict::Handle);
    assert_eq!(key_verdict(true, None, false), KeyVerdict::Handle);
    assert_eq!(key_verdict(true, None, true), KeyVerdict::Quit);
}

#[test]
fn wrapping_keeps_all_other_characters() {
    let text = "the quick  brown fox jumps over\tthe lazy dog";
    for w in 1..12 {
        let joined: String = split_to_width(text, w).concat();
        let kept: String = joined.chars().filter(|c| !c.is_whitespace()).collect();
        let all: String = text.chars().filter(|c| !c.is_whitespace()).collect();
        assert_eq!(kept, all, "width {w}");
    }
}
