use std::path::PathBuf;

use kiro::cli_credentials::DetectedCredentials;
use kiro::credentials::{CredentialsConfig, KiroCredentials};
use kiro::detect_error::{DetectError, DetectFailure};
use kiro::import::{
    import_kiro_cli_credentials, same_credential, same_non_empty_value, Import, ImportError,
    ImportOutcome,
};
use kiro::save::SaveError;

fn with_token(token: Option<&str>) -> KiroCredentials {
    KiroCredentials {
        refresh_token: token.map(|t| t.to_string()),
        ..KiroCredentials::default()
    }
}

fn detected(token: &str) -> DetectedCredentials {
    DetectedCredentials {
        credentials: with_token(Some(token)),
        db_path: PathBuf::from("/k.db"),
    }
}

fn import_into(file: CredentialsConfig, token: &str) -> Import {
    match import_kiro_cli_credentials(Ok(Some(detected(token)))) {
        Import::LoadFile(pending) => pending.loaded(Ok(file)),
        other => panic!("{:?}", other),
    }
}

fn tokens(list: &[KiroCredentials]) -> Vec<&str> {
    list.iter().map(|c| c.refresh_token.as_deref().unwrap()).collect()
}

#[test]
fn same_values_are_compared_trimmed() {
    let value = |s: &str| Some(s.to_string());
    assert!(same_non_empty_value(&value("a"), &value(" a\n")));
    assert!(!same_non_empty_value(&value("a"), &value("A")));
    assert!(!same_non_empty_value(&value(" "), &value("")));
    assert!(!same_non_empty_value(&None, &None));
    assert!(!same_non_empty_value(&value("a"), &None));
}

#[test]
fn credentials_are_the_same_by_refresh_token() {
    let mut other = with_token(Some("t "));
    other.region = Some("us".to_string());
    assert!(same_credential(&with_token(Some("t")), &other));
    assert!(same_credential(&other, &with_token(Some("t"))));
    assert!(!same_credential(&with_token(None), &with_token(None)));
}

#[test]
fn import_appends_a_new_login() {
    let file = CredentialsConfig::Multiple(vec![with_token(Some("a")), with_token(Some("b"))]);
    match import_into(file, "c") {
        Import::SaveFile(save) => {
            assert_eq!(tokens(&save.credentials), vec!["a", "b", "c"]);
            assert_eq!(save.db_path, PathBuf::from("/k.db"));
            match save.saved(Ok(())) {
                Import::Finished(ImportOutcome::Imported { db_path }) => {
                    assert_eq!(db_path, PathBuf::from("/k.db"))
                }
                other => panic!("{:?}", other),
            }
        }
        other => panic!("{:?}", other),
    }
}

#[test]
fn import_turns_a_single_object_into_a_list() {
    match import_into(CredentialsConfig::Single(with_token(Some("a"))), "b") {
        Import::SaveFile(save) => assert_eq!(tokens(&save.credentials), vec!["a", "b"]),
        other => panic!("{:?}", other),
    }
}

#[test]
fn second_import_changes_nothing() {
    let written = match import_into(CredentialsConfig::Multiple(vec![]), "a") {
        Import::SaveFile(save) => save.credentials,
        other => panic!("{:?}", other),
    };
    assert!(matches!(
        import_into(CredentialsConfig::Multiple(written), " a"),
        Import::Finished(ImportOutcome::AlreadyPresent)
    ));
}

#[test]
fn import_brings_no_duplicate() {
    let file = CredentialsConfig::Multiple(vec![with_token(Some("a")), with_token(None)]);
    match import_into(file, "b") {
        Import::SaveFile(save) => {
            for (i, left) in save.credentials.iter().enumerate() {
                for right in &save.credentials[i + 1..] {
                    assert!(!same_credential(left, right));
                }
            }
        }
        other => panic!("{:?}", other),
    }
}

#[test]
fn import_without_a_login_fails() {
    match import_kiro_cli_credentials(Ok(None)) {
        Import::Failed(error) => {
            assert!(matches!(error, ImportError::NothingDetected));
            assert_eq!(
                error.message("c.json"),
                "未检测到可导入的 Kiro CLI 登录凭据；可用 --kiro-cli-db 或 KIRO_CLI_DB 指定数据库路径"
            );
        }
        other => panic!("{:?}", other),
    }
}

#[test]
fn failed_lookup_fails_the_import() {
    let failure = DetectFailure {
        db_path: PathBuf::from("/k.db"),
        error: DetectError::NoExportRow,
    };
    match import_kiro_cli_credentials(Err(failure)) {
        Import::Failed(error) => {
            assert!(matches!(error, ImportError::Detection(_)));
            assert_eq!(
                error.message("c.json"),
                "no Kiro CLI auth rows could be exported from /k.db"
            );
        }
        other => panic!("{:?}", other),
    }
}

#[test]
fn unreadable_file_fails_the_import() {
    match import_kiro_cli_credentials(Ok(Some(detected("a")))) {
        Import::LoadFile(pending) => match pending.loaded(Err("denied".to_string())) {
            Import::Failed(error) => {
                assert!(matches!(error, ImportError::Load { .. }));
                assert_eq!(error.message("c.json"), "加载凭据文件失败: c.json: denied");
            }
            other => panic!("{:?}", other),
        },
        other => panic!("{:?}", other),
    }
}

#[test]
fn unwritable_file_fails_the_import() {
    let cases = vec![
        (
            SaveError::Directory { directory: "d".to_string(), cause: "x".to_string() },
            "创建凭据目录失败: d: x",
        ),
        (SaveError::Serialize { cause: "x".to_string() }, "序列化凭据失败: x"),
        (SaveError::Write { cause: "x".to_string() }, "写入凭据文件失败: c.json: x"),
    ];
    for (error, expected) in cases {
        let save = match import_into(CredentialsConfig::Multiple(vec![]), "a") {
            Import::SaveFile(save) => save,
            other => panic!("{:?}", other),
        };
        match save.saved(Err(error)) {
            Import::Failed(error) => {
                assert!(matches!(error, ImportError::Save(_)));
                assert_eq!(error.message("c.json"), expected);
            }
            other => panic!("{:?}", other),
        }
    }
}

#[test]
fn same_login_is_symmetric_and_transitive() {
    let (a, b, c) = (with_token(Some("t")), with_token(Some(" t")), with_token(Some("t\n")));
    assert!(same_credential(&a, &b) && same_credential(&b, &c) && same_credential(&a, &c));
    assert!(same_credential(&c, &a) && same_credential(&a, &a));
    assert!(!same_credential(&with_token(Some(" ")), &with_token(Some(" "))));
}
