use rs_rok_cli::config::{Profile, Settings};
use rs_rok_cli::saved_tunnels::{config_path, dir_or_current, SavedTunnel, SavedTunnelState, SavedTunnelType};
use rs_rok_cli::text::{hex_encode, padded_right, parse_u16_str, u64_to_decimal, wrap_next, wrap_prev};
use rs_rok_cli::tunnel::{generate_tcp_token, local_addr, TunnelConfig, TunnelType};

#[test]
fn local_addr_joins_host_and_port() {
    assert_eq!(local_addr("127.0.0.1", 8080), "127.0.0.1:8080");
    assert_eq!(local_addr("localhost", 0), "localhost:0");
    assert_eq!(local_addr("::1", 65535), "::1:65535");
}

#[test]
fn tcp_token_is_32_lowercase_hex_digits() {
    let t = generate_tcp_token();
    assert_eq!(t.len(), 32);
    assert!(t.chars().all(|c| c.is_ascii_digit() || ('a'..='f').contains(&c)));
    let u = generate_tcp_token();
    assert_eq!(u.len(), 32);
}

#[test]
fn hex_encoding_of_bytes() {
    assert_eq!(hex_encode(&[0x00, 0x0f, 0xab, 0xff]), "000fabff");
    assert_eq!(hex_encode(&[]), "");
}

#[test]
fn decimal_rendering() {
    assert_eq!(u64_to_decimal(0), "0");
    assert_eq!(u64_to_decimal(1234567890), "1234567890");
    assert_eq!(u64_to_decimal(u64::MAX), "18446744073709551615");
}

#[test]
fn port_parsing_matches_str_parse() {
    for s in ["", "+", "0", "+80", "8080", "65535", "65536", "99999999999", "12a", "-1", " 1", "007"] {
        assert_eq!(parse_u16_str(s), s.parse::<u16>().ok(), "input {s:?}");
    }
}

#[test]
fn padding_on_the_right() {
    assert_eq!(padded_right("ab", 5), "ab   ");
    assert_eq!(padded_right("abcdef", 3), "abcdef");
}

#[test]
fn cyclic_indices() {
    assert_eq!(wrap_next(2, 3), 0);
    assert_eq!(wrap_next(0, 3), 1);
    assert_eq!(wrap_prev(0, 3), 2);
    assert_eq!(wrap_prev(2, 3), 1);
    assert_eq!(wrap_prev(usize::MAX, 3), (usize::MAX % 3 + 2) % 3);
}

#[test]
fn config_for_profile_uses_endpoint_and_token() {
    let mut p = Profile::new("p", "https://w.dev");
    let c = TunnelConfig::for_profile(&p, TunnelType::Http, "localhost", 3000, None, None);
    assert_eq!(c.endpoint, "https://w.dev");
    assert_eq!(c.auth_token, "");
    assert_eq!(c.local_addr, "localhost:3000");
    p.auth_token = Some("tok".to_string());
    let c = TunnelConfig::for_profile(&p, TunnelType::Tcp, "h", 1, Some("n".to_string()), Some("t".to_string()));
    assert_eq!(c.auth_token, "tok");
    assert_eq!(c.tunnel_type, TunnelType::Tcp);
    assert_eq!(c.name.as_deref(), Some("n"));
    assert_eq!(c.tcp_token.as_deref(), Some("t"));
}

fn saved(profile: &str, state: SavedTunnelState) -> SavedTunnel {
    SavedTunnel {
        profile: profile.to_string(),
        tunnel_type: SavedTunnelType::Https,
        host: "localhost".to_string(),
        port: 8443,
        state,
        name: Some("web".to_string()),
        tcp_token: None,
    }
}

#[test]
fn saved_tunnel_resolves_through_its_profile() {
    let mut settings = Settings::default();
    let mut staging = Profile::new("staging", "https://staging.dev");
    staging.auth_token = Some("s-tok".to_string());
    settings.profiles.push(staging);
    let c = saved("staging", SavedTunnelState::Running).to_tunnel_config(&settings).unwrap();
    assert_eq!(c.endpoint, "https://staging.dev");
    assert_eq!(c.auth_token, "s-tok");
    assert_eq!(c.tunnel_type, TunnelType::Https);
    assert_eq!(c.local_addr, "localhost:8443");
    assert_eq!(c.name.as_deref(), Some("web"));
    assert!(saved("gone", SavedTunnelState::Running).to_tunnel_config(&settings).is_none());
}

#[test]
fn saved_tunnel_type_conversions() {
    for t in [TunnelType::Http, TunnelType::Https, TunnelType::Tcp] {
        assert_eq!(TunnelType::from(SavedTunnelType::from(t)), t);
    }
    assert_eq!(SavedTunnelType::from(TunnelType::Tcp), SavedTunnelType::Tcp);
    assert_eq!(SavedTunnelState::default(), SavedTunnelState::Running);
}

#[test]
fn tunnels_file_sits_beside_settings() {
    let p = config_path("/home/u/.rs-rok/settings.json");
    assert_eq!(std::path::Path::new(&p), std::path::Path::new("/home/u/.rs-rok/tunnels.json"));
    let q = config_path("settings.json");
    assert_eq!(std::path::Path::new(&q), std::path::Path::new("tunnels.json"));
    let r = config_path("");
    assert_eq!(std::path::Path::new(&r), std::path::Path::new("./tunnels.json"));
}

#[test]
fn missing_parent_means_current_directory() {
    assert_eq!(dir_or_current(None), ".");
    assert_eq!(dir_or_current(Some("/etc".to_string())), "/etc");
}
