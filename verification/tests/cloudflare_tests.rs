use rs_rok_cli::cloudflare_config::{
    resolve_deploy_account, CfAccount, CloudflareConfig, DeployCredentialError, ParsedCloudflare,
};

fn acc(name: &str, id: &str, tok: &str) -> CfAccount {
    CfAccount { name: name.to_string(), account_id: id.to_string(), api_token: tok.to_string() }
}

#[test]
fn round_trip_save_load() {
    let config = CloudflareConfig { accounts: vec![acc("test", "abc123", "tok456")] };
    let (loaded, rewrite) = CloudflareConfig::from_parsed(ParsedCloudflare::Accounts(config.accounts));
    assert_eq!(loaded.accounts.len(), 1);
    assert_eq!(loaded.accounts[0].account_id, "abc123");
    assert_eq!(loaded.accounts[0].api_token, "tok456");
    assert_eq!(loaded.accounts[0].name, "test");
    assert!(!rewrite);
}

#[test]
fn load_legacy_single_object() {
    let (loaded, rewrite) = CloudflareConfig::from_parsed(ParsedCloudflare::Single(acc("", "abc", "tok")));
    assert_eq!(loaded.accounts.len(), 1);
    assert_eq!(loaded.accounts[0].account_id, "abc");
    assert!(rewrite);
}

#[test]
fn load_missing_file_returns_empty() {
    let (mut loaded, _) = CloudflareConfig::from_parsed(ParsedCloudflare::Nothing);
    loaded.apply_env_overrides(None, None);
    assert!(loaded.accounts.is_empty());
}

#[test]
fn env_overrides_create_account_only_with_both_variables() {
    let mut cfg = CloudflareConfig { accounts: Vec::new() };
    cfg.apply_env_overrides(Some("id".to_string()), None);
    assert!(cfg.accounts.is_empty());
    cfg.apply_env_overrides(Some("id".to_string()), Some("tok".to_string()));
    assert_eq!(cfg.accounts.len(), 1);
    assert_eq!(cfg.accounts[0].name, "env");
    assert_eq!(cfg.accounts[0].account_id, "id");
    assert_eq!(cfg.accounts[0].api_token, "tok");
}

#[test]
fn env_overrides_replace_fields_of_first_account() {
    let mut cfg = CloudflareConfig { accounts: vec![acc("a", "1", "t1"), acc("b", "2", "t2")] };
    cfg.apply_env_overrides(None, Some("envtok".to_string()));
    assert_eq!(cfg.accounts[0].name, "a");
    assert_eq!(cfg.accounts[0].account_id, "1");
    assert_eq!(cfg.accounts[0].api_token, "envtok");
    assert_eq!(cfg.accounts[1].api_token, "t2");
}

#[test]
fn first_account() {
    let cfg = CloudflareConfig { accounts: Vec::new() };
    assert!(cfg.first().is_none());
    let cfg = CloudflareConfig { accounts: vec![acc("a", "1", "t1"), acc("b", "2", "t2")] };
    assert_eq!(cfg.first().unwrap().name, "a");
}

#[test]
fn upsert_replaces_matching_account() {
    let mut cfg = CloudflareConfig { accounts: vec![acc("a", "1", "t1"), acc("b", "2", "t2")] };
    cfg.upsert_account(acc("b2", "2", "new"));
    assert_eq!(cfg.accounts.len(), 2);
    assert_eq!(cfg.accounts[1].name, "b2");
    assert_eq!(cfg.accounts[1].api_token, "new");
    assert_eq!(cfg.accounts[0].api_token, "t1");
}

#[test]
fn upsert_without_match_replaces_first_or_adds() {
    let mut cfg = CloudflareConfig { accounts: Vec::new() };
    cfg.upsert_account(acc("x", "9", "t9"));
    assert_eq!(cfg.accounts.len(), 1);
    assert_eq!(cfg.accounts[0].account_id, "9");
    cfg.upsert_account(acc("y", "8", "t8"));
    assert_eq!(cfg.accounts.len(), 1);
    assert_eq!(cfg.accounts[0].account_id, "8");
}

#[test]
fn upsert_twice_is_upsert_once() {
    let mut once = CloudflareConfig { accounts: vec![acc("a", "1", "t1"), acc("b", "2", "t2")] };
    once.upsert_account(acc("c", "2", "t3"));
    let mut twice = CloudflareConfig { accounts: vec![acc("a", "1", "t1"), acc("b", "2", "t2")] };
    twice.upsert_account(acc("c", "2", "t3"));
    twice.upsert_account(acc("c", "2", "t3"));
    assert_eq!(once.accounts.len(), twice.accounts.len());
    for (x, y) in once.accounts.iter().zip(twice.accounts.iter()) {
        assert_eq!((&x.name, &x.account_id, &x.api_token), (&y.name, &y.account_id, &y.api_token));
    }
}

#[test]
fn add_credentials_appends_unnamed_account() {
    let mut cfg = CloudflareConfig { accounts: vec![acc("a", "1", "t1")] };
    cfg.add_credentials("2".to_string(), "t2".to_string());
    assert_eq!(cfg.accounts.len(), 2);
    assert_eq!(cfg.accounts[1].name, "");
    assert_eq!(cfg.accounts[1].account_id, "2");
}

#[test]
fn deploy_account_flags_take_precedence() {
    let cfg = CloudflareConfig { accounts: vec![acc("a", "1", "t1")] };
    let a = resolve_deploy_account(&cfg, Some("9".to_string()), None).unwrap();
    assert_eq!(a.account_id, "9");
    assert_eq!(a.api_token, "t1");
    assert_eq!(a.name, "a");
}

#[test]
fn deploy_account_errors() {
    let empty = CloudflareConfig { accounts: Vec::new() };
    assert!(matches!(
        resolve_deploy_account(&empty, None, Some("t".to_string())),
        Err(DeployCredentialError::MissingAccountId)
    ));
    assert!(matches!(
        resolve_deploy_account(&empty, Some("1".to_string()), None),
        Err(DeployCredentialError::MissingApiToken)
    ));
    let stored = CloudflareConfig { accounts: vec![acc("a", "", "t1")] };
    assert!(matches!(
        resolve_deploy_account(&stored, None, None),
        Err(DeployCredentialError::MissingAccountId)
    ));
    let ok = resolve_deploy_account(&empty, Some("1".to_string()), Some("t".to_string())).unwrap();
    assert_eq!(ok.name, "");
}
