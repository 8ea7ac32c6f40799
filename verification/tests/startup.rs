use std::path::PathBuf;

use kiro::arg::Args;
use kiro::cli_credentials::DetectedCredentials;
use kiro::credentials::{CredentialsConfig, KiroCredentials};
use kiro::detect_error::{DetectError, DetectFailure};
use kiro::startup::{
    add_api_key, admin_access, adopt_detected, checked_masked_api_key, listen_address,
    masked_api_key, plan_startup, proxy_config, startup_credentials, AdminAccess, Config, StartupError,
};

fn config() -> Config {
    Config {
        host: "127.0.0.1".to_string(),
        port: 8990,
        api_key: Some("sk-key".to_string()),
        admin_api_key: None,
        default_endpoint: "ide".to_string(),
        proxy_url: None,
        proxy_username: None,
        proxy_password: None,
    }
}

fn credential(id: u64, priority: u32) -> KiroCredentials {
    KiroCredentials { id: Some(id), priority, ..KiroCredentials::default() }
}

fn ids(list: &[KiroCredentials]) -> Vec<Option<u64>> {
    list.iter().map(|c| c.id).collect()
}

fn found(id: u64) -> Result<Option<DetectedCredentials>, DetectFailure> {
    Ok(Some(DetectedCredentials {
        credentials: credential(id, 0),
        db_path: PathBuf::from("/k.db"),
    }))
}

#[test]
fn argument_paths_have_defaults() {
    let args = Args {
        config: None,
        credentials: Some("c.json".to_string()),
        import_kiro_cli_credentials: false,
        kiro_cli_db: None,
    };
    assert_eq!(args.config_path("config.json"), "config.json");
    assert_eq!(args.credentials_path("credentials.json"), "c.json");
}

#[test]
fn detected_credentials_fill_an_empty_file() {
    let adopted = adopt_detected(CredentialsConfig::Multiple(vec![]), found(7));
    assert!(adopted.is_multiple());
    assert!(!adopted.is_empty());
    assert_eq!(ids(&adopted.into_credentials()), vec![Some(7)]);
}

#[test]
fn detected_credentials_leave_a_filled_file_alone() {
    let adopted = adopt_detected(CredentialsConfig::Single(credential(1, 0)), found(7));
    assert!(!adopted.is_multiple());
    assert_eq!(ids(&adopted.into_credentials()), vec![Some(1)]);
}

#[test]
fn empty_file_stays_empty_without_a_lookup_result() {
    let failure = DetectFailure {
        db_path: PathBuf::from("/k.db"),
        error: DetectError::NoExportRow,
    };
    for detected in [Ok(None), Err(failure)] {
        let adopted = adopt_detected(CredentialsConfig::Multiple(vec![]), detected);
        assert!(adopted.is_empty());
        assert!(adopted.is_multiple());
    }
}

#[test]
fn credentials_are_sorted_by_priority_and_keep_ties() {
    let file = CredentialsConfig::Multiple(vec![
        credential(1, 5),
        credential(2, 0),
        credential(3, 5),
        credential(4, 2),
        credential(5, 0),
    ]);
    assert_eq!(
        ids(&file.into_sorted_credentials()),
        vec![Some(2), Some(5), Some(4), Some(1), Some(3)]
    );
}

#[test]
fn api_key_goes_first() {
    let list = add_api_key(vec![credential(1, 0)], Some("k".to_string()));
    assert_eq!(list.len(), 2);
    assert_eq!(list[0].kiro_api_key.as_deref(), Some("k"));
    assert_eq!(list[0].auth_method.as_deref(), Some("api_key"));
    assert_eq!(list[0].priority, 0);
    assert_eq!(list[0].id, None);
    assert_eq!(list[1].id, Some(1));
}

#[test]
fn empty_api_key_counts_as_none() {
    assert_eq!(add_api_key(vec![], Some(String::new())).len(), 0);
    assert_eq!(add_api_key(vec![], None).len(), 0);
    // A blank key is a key.
    assert_eq!(add_api_key(vec![], Some(" ".to_string())).len(), 1);
}

#[test]
fn startup_credentials_are_in_order() {
    let file = CredentialsConfig::Multiple(vec![credential(1, 3), credential(2, 1)]);
    let startup = startup_credentials(file, Some("k".to_string()));
    assert!(startup.is_multiple);
    assert_eq!(ids(&startup.list), vec![None, Some(2), Some(1)]);

    let startup = startup_credentials(CredentialsConfig::Single(credential(1, 3)), None);
    assert!(!startup.is_multiple);
    assert_eq!(ids(&startup.list), vec![Some(1)]);
}

#[test]
fn proxy_needs_both_halves_of_its_login() {
    let mut config = config();
    assert!(proxy_config(&config).is_none());
    config.proxy_url = Some("http://proxy".to_string());
    config.proxy_username = Some("u".to_string());
    let proxy = proxy_config(&config).unwrap();
    assert_eq!(proxy.url, "http://proxy");
    assert_eq!(proxy.auth, None);
    config.proxy_password = Some("p".to_string());
    assert_eq!(
        proxy_config(&config).unwrap().auth,
        Some(("u".to_string(), "p".to_string()))
    );
}

#[test]
fn blank_admin_key_keeps_the_admin_api_off() {
    let mut config = config();
    assert!(matches!(admin_access(&config), AdminAccess::Off));
    config.admin_api_key = Some(" \t".to_string());
    assert!(matches!(admin_access(&config), AdminAccess::BlankKey));
    config.admin_api_key = Some(" k ".to_string());
    assert!(matches!(admin_access(&config), AdminAccess::On(key) if key == " k "));
}

#[test]
fn address_is_host_and_port() {
    let mut config = config();
    assert_eq!(listen_address(&config), "127.0.0.1:8990");
    config.port = 0;
    assert_eq!(listen_address(&config), "127.0.0.1:0");
    config.port = 65535;
    assert_eq!(listen_address(&config), "127.0.0.1:65535");
}

#[test]
fn half_of_the_api_key_is_shown() {
    assert_eq!(masked_api_key("sk-123456"), "sk-1***");
    assert_eq!(masked_api_key(""), "***");
    assert_eq!(masked_api_key("\u{e9}\u{e9}"), "\u{e9}***");
}

#[test]
fn startup_is_planned() {
    let mut config = config();
    config.admin_api_key = Some("admin".to_string());
    config.proxy_url = Some("http://proxy".to_string());
    let mut named = credential(1, 0);
    named.endpoint = Some("other".to_string());
    let endpoints = vec!["other".to_string(), "ide".to_string()];
    let plan = plan_startup(&config, &vec![credential(2, 0), named], &endpoints).unwrap();
    assert_eq!(plan.address, "127.0.0.1:8990");
    assert_eq!(plan.api_key, "sk-key");
    assert_eq!(plan.proxy.unwrap().url, "http://proxy");
    assert!(matches!(plan.admin, AdminAccess::On(key) if key == "admin"));
}

#[test]
fn missing_api_key_comes_before_other_errors() {
    let mut config = config();
    config.api_key = None;
    assert!(matches!(
        plan_startup(&config, &vec![], &vec![]),
        Err(StartupError::MissingApiKey)
    ));
}

#[test]
fn unknown_default_endpoint_is_an_error() {
    match plan_startup(&config(), &vec![], &vec!["cli".to_string()]) {
        Err(StartupError::UnknownDefaultEndpoint { name }) => assert_eq!(name, "ide"),
        other => panic!("{:?}", other),
    }
}

#[test]
fn first_unknown_endpoint_is_reported() {
    let endpoints = vec!["ide".to_string()];
    let mut second = credential(2, 0);
    second.endpoint = Some("cli".to_string());
    let mut third = credential(3, 0);
    third.endpoint = Some("web".to_string());
    match plan_startup(&config(), &vec![credential(1, 0), second, third], &endpoints) {
        Err(StartupError::UnknownEndpoint { position, id, name }) => {
            assert_eq!(position, 1);
            assert_eq!(id, Some(2));
            assert_eq!(name, "cli");
        }
        other => panic!("{:?}", other),
    }
}

#[test]
fn key_that_would_be_cut_is_not_shown() {
    assert_eq!(checked_masked_api_key("sk-123456"), Some("sk-1***".to_string()));
    // Half of three bytes falls into the first character.
    assert_eq!(checked_masked_api_key("\u{e9}a"), None);
}
