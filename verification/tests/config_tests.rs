use rs_rok_cli::config::{
    default_endpoint, default_region, text_shape, LoadedSettings, ParsedSettings, Profile, Settings,
    TextShape,
};

fn profile(name: &str, endpoint: &str, region: &str) -> Profile {
    let mut p = Profile::new(name, endpoint);
    p.default_region = region.to_string();
    p
}

#[test]
fn default_settings() {
    let s = Settings::default();
    assert_eq!(s.active_idx, 0);
    assert_eq!(s.profiles.len(), 1);
    let p = s.active_profile();
    assert!(p.auth_token.is_none());
    assert_eq!(p.endpoint, "http://localhost:8787");
    assert_eq!(p.default_region, "auto");
}

#[test]
fn switch_active_by_name() {
    let mut settings = Settings::default();
    settings.profiles.push(Profile::new("staging", "https://staging.dev"));

    assert_eq!(settings.active_idx, 0);
    assert!(settings.switch_active_by_name("staging"));
    assert_eq!(settings.active_idx, 1);
    assert_eq!(settings.active_profile().name, "staging");

    assert!(!settings.switch_active_by_name("nonexistent"));
    assert_eq!(settings.active_idx, 1);
}

#[test]
fn load_missing_file_returns_defaults() {
    let LoadedSettings { settings, rewrite, env_overrides } = Settings::from_parsed(ParsedSettings::Absent);
    let p = settings.active_profile();
    assert!(p.auth_token.is_none());
    assert_eq!(p.endpoint, "http://localhost:8787");
    assert!(!rewrite);
    // The environment overrides apply even without a settings file.
    assert!(env_overrides);
}

#[test]
fn migrate_legacy_flat_format() {
    let loaded = Settings::from_parsed(ParsedSettings::Flat {
        auth_token: Some("old-token".to_string()),
        endpoint: Some("https://old.example.dev".to_string()),
        default_region: Some("us".to_string()),
    });
    let p = loaded.settings.active_profile();
    assert_eq!(p.auth_token.as_deref(), Some("old-token"));
    assert_eq!(p.endpoint, "https://old.example.dev");
    assert_eq!(p.default_region, "us");
    assert_eq!(p.name, "default");
    // Migrated: to be written back as an array.
    assert!(loaded.rewrite);
}

#[test]
fn migrate_wrapped_format() {
    let loaded = Settings::from_parsed(ParsedSettings::Wrapped {
        active_profile: "staging".to_string(),
        profiles: vec![
            profile("default", "http://localhost:8787", "auto"),
            profile("staging", "https://staging.dev", "eu"),
        ],
    });
    assert_eq!(loaded.settings.profiles.len(), 2);
    assert_eq!(loaded.settings.active_idx, 1);
    assert_eq!(loaded.settings.active_profile().name, "staging");
    assert_eq!(loaded.settings.active_profile().endpoint, "https://staging.dev");
    assert!(loaded.rewrite);
}

#[test]
fn load_user_array_format() {
    let loaded = Settings::from_parsed(ParsedSettings::Profiles(vec![
        profile("production", "https://rs-rok.workers.dev", "auto"),
        profile("local", "http://localhost:8787", "auto"),
    ]));
    assert_eq!(loaded.settings.profiles.len(), 2);
    assert_eq!(loaded.settings.active_idx, 0);
    assert_eq!(loaded.settings.profiles[0].name, "production");
    assert_eq!(loaded.settings.profiles[1].name, "local");
    assert!(!loaded.rewrite);
    assert!(loaded.env_overrides);
}

#[test]
fn wrapped_format_with_unknown_active_uses_first() {
    let loaded = Settings::from_parsed(ParsedSettings::Wrapped {
        active_profile: "gone".to_string(),
        profiles: vec![profile("a", "http://a", "auto"), profile("b", "http://b", "auto")],
    });
    assert_eq!(loaded.settings.active_idx, 0);
    assert_eq!(loaded.settings.active_profile().name, "a");
}

#[test]
fn wrapped_format_without_profiles_gives_defaults() {
    let loaded = Settings::from_parsed(ParsedSettings::Wrapped {
        active_profile: "x".to_string(),
        profiles: Vec::new(),
    });
    assert_eq!(loaded.settings.profiles.len(), 1);
    assert_eq!(loaded.settings.active_profile().name, "default");
    assert!(loaded.rewrite);
}

#[test]
fn empty_array_gives_defaults() {
    let loaded = Settings::from_parsed(ParsedSettings::Profiles(Vec::new()));
    assert_eq!(loaded.settings.profiles.len(), 1);
    assert_eq!(loaded.settings.active_profile().endpoint, "http://localhost:8787");
    assert!(!loaded.rewrite);
}

#[test]
fn flat_format_fills_missing_fields_with_defaults() {
    let loaded = Settings::from_parsed(ParsedSettings::Flat {
        auth_token: None,
        endpoint: None,
        default_region: None,
    });
    let p = loaded.settings.active_profile();
    assert_eq!(p.endpoint, "http://localhost:8787");
    assert_eq!(p.default_region, "auto");
    assert!(p.auth_token.is_none());
}

#[test]
fn unrecognized_text_gives_defaults_with_overrides() {
    let loaded = Settings::from_parsed(ParsedSettings::Unrecognized);
    assert_eq!(loaded.settings.profiles.len(), 1);
    assert!(!loaded.rewrite);
    assert!(loaded.env_overrides);
}

#[test]
fn multiple_profiles_with_cf_credentials() {
    let mut settings = Settings::default();
    settings.profiles[0].cf_account_id = Some("abc123".into());
    settings.profiles[0].cf_api_token = Some("tok456".into());
    settings.profiles.push(Profile::new("staging", "https://staging.dev"));
    let loaded = Settings::from_parsed(ParsedSettings::Profiles(settings.profiles));
    assert_eq!(loaded.settings.profiles.len(), 2);
    assert_eq!(loaded.settings.profiles[0].cf_account_id.as_deref(), Some("abc123"));
    assert!(loaded.settings.profiles[1].cf_account_id.is_none());
}

#[test]
fn profile_new_and_defaults() {
    let p = Profile::new("x", "http://y");
    assert_eq!(p.name, "x");
    assert_eq!(p.endpoint, "http://y");
    assert_eq!(p.default_region, "auto");
    assert!(p.cf_account_id.is_none() && p.cf_api_token.is_none());
    let d = Profile::default_profile();
    assert_eq!(d.name, "default");
    assert_eq!(default_endpoint(), "http://localhost:8787");
    assert_eq!(default_region(), "auto");
}

#[test]
fn switch_active_out_of_range_is_ignored() {
    let mut s = Settings::default();
    s.profiles.push(Profile::new("b", "http://b"));
    s.switch_active(1);
    assert_eq!(s.active_idx, 1);
    s.switch_active(5);
    assert_eq!(s.active_idx, 1);
}

#[test]
fn env_overrides_replace_active_token_and_endpoint() {
    let mut s = Settings::default();
    s.update_active(Some("env-token".to_string()), None);
    assert_eq!(s.active_profile().auth_token.as_deref(), Some("env-token"));
    assert_eq!(s.active_profile().endpoint, "http://localhost:8787");
    s.update_active(None, Some("https://env.dev".to_string()));
    assert_eq!(s.active_profile().endpoint, "https://env.dev");
    assert_eq!(s.active_profile().auth_token.as_deref(), Some("env-token"));
}

#[test]
fn deploy_result_sets_endpoint_and_token() {
    let mut s = Settings::default();
    s.apply_deploy_result("https://w.dev".to_string(), Some("t".to_string()));
    assert_eq!(s.active_profile().endpoint, "https://w.dev");
    assert_eq!(s.active_profile().auth_token.as_deref(), Some("t"));
    s.apply_deploy_result("https://v.dev".to_string(), None);
    assert_eq!(s.active_profile().endpoint, "https://v.dev");
}

#[test]
fn active_profile_mut_edits_the_active_profile() {
    let mut s = Settings::default();
    s.profiles.push(Profile::new("b", "http://b"));
    s.switch_active(1);
    s.active_profile_mut().endpoint = "http://changed".to_string();
    assert_eq!(s.profiles[1].endpoint, "http://changed");
    assert_eq!(s.profiles[0].endpoint, "http://localhost:8787");
}

#[test]
fn env_overrides_apply_without_a_settings_file() {
    let loaded = Settings::from_parsed(ParsedSettings::Absent);
    assert!(loaded.env_overrides);
    let mut s = loaded.settings;
    s.update_active(Some("test-token".to_string()), Some("http://127.0.0.1:8787".to_string()));
    assert_eq!(s.active_profile().auth_token.as_deref(), Some("test-token"));
    assert_eq!(s.active_profile().endpoint, "http://127.0.0.1:8787");
}

#[test]
fn file_text_shapes() {
    assert_eq!(text_shape(""), TextShape::Blank);
    assert_eq!(text_shape(" \n\t "), TextShape::Blank);
    assert_eq!(text_shape("  [ {} ]"), TextShape::Array);
    assert_eq!(text_shape("\n{\"endpoint\": \"x\"}"), TextShape::Other);
    assert_eq!(text_shape("x["), TextShape::Other);
}
