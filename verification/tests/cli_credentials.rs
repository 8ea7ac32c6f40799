use std::path::PathBuf;

use kiro::cli_credentials::{
    default_db_path, detect_local_credentials, detect_local_credentials_from, load_from_db,
    Detection, Environment, LoadStep,
};
use kiro::detect_error::DetectError;
use kiro::export::{build_credentials, has_row, non_empty, query_export_row, ExportRow};
use kiro::queries::{sqlite_arguments, Query, SqliteArg, SQLITE_PROGRAM};
use kiro::sqlite::Reply;

fn row() -> ExportRow {
    ExportRow {
        access_token: "access".to_string(),
        refresh_token: "refresh".to_string(),
        expires_raw: "2025-01-01T00:00:00Z".to_string(),
        region: "us-east-1".to_string(),
        client_id: "client".to_string(),
        client_secret: "secret".to_string(),
    }
}

fn no_environment() -> Environment {
    Environment { kiro_cli_db: None, home: None, user_profile: None }
}

/// Runs a lookup on a database that gives these replies, and lists its queries.
fn run(mut step: Detection, is_file: bool, replies: fn(Query) -> Reply) -> (Detection, Vec<Query>) {
    let mut asked: Vec<Query> = Vec::new();
    loop {
        step = match step {
            Detection::CheckFile(check) => check.checked(is_file),
            Detection::RunQuery(open) => {
                let query = open.state.query();
                asked.push(query);
                open.answered(replies(query))
            }
            ended => return (ended, asked),
        };
    }
}

fn detect_at(path: &str, replies: fn(Query) -> Reply) -> (Detection, Vec<Query>) {
    run(
        detect_local_credentials_from(Some(PathBuf::from(path)), no_environment()),
        true,
        replies,
    )
}

#[test]
fn builds_idc_credentials() {
    let row = ExportRow {
        access_token: "access".to_string(),
        refresh_token: "refresh".to_string(),
        expires_raw: "2025-01-01T00:00:00Z".to_string(),
        region: "us-east-1".to_string(),
        client_id: "client".to_string(),
        client_secret: "secret".to_string(),
    };

    let credentials = build_credentials("idc", row).unwrap();

    assert_eq!(credentials.auth_method.as_deref(), Some("idc"));
    assert_eq!(credentials.refresh_token.as_deref(), Some("refresh"));
    assert_eq!(credentials.client_id.as_deref(), Some("client"));
    assert_eq!(credentials.client_secret.as_deref(), Some("secret"));
    assert_eq!(credentials.region.as_deref(), Some("us-east-1"));
    assert_eq!(credentials.auth_region.as_deref(), Some("us-east-1"));
    assert_eq!(credentials.api_region.as_deref(), Some("us-east-1"));
}

#[test]
fn built_credentials_leave_the_rest_empty() {
    let credentials = build_credentials("social", row()).unwrap();
    assert_eq!(credentials.access_token.as_deref(), Some("access"));
    assert_eq!(credentials.expires_at.as_deref(), Some("2025-01-01T00:00:00+00:00"));
    assert_eq!(credentials.id, None);
    assert_eq!(credentials.priority, 0);
    assert_eq!(credentials.endpoint, None);
    assert_eq!(credentials.kiro_api_key, None);
    assert_eq!(credentials.extra, None);
}

#[test]
fn blank_fields_become_none_and_the_refresh_token_stays_as_it_is() {
    let credentials = build_credentials(
        "social",
        ExportRow {
            access_token: " ".to_string(),
            refresh_token: " refresh ".to_string(),
            expires_raw: "".to_string(),
            region: " eu-west-1 ".to_string(),
            client_id: "".to_string(),
            client_secret: "\t".to_string(),
        },
    )
    .unwrap();
    assert_eq!(credentials.access_token, None);
    assert_eq!(credentials.refresh_token.as_deref(), Some(" refresh "));
    assert_eq!(credentials.expires_at, None);
    assert_eq!(credentials.region.as_deref(), Some("eu-west-1"));
    assert_eq!(credentials.client_id, None);
    assert_eq!(credentials.client_secret, None);
}

#[test]
fn refresh_token_is_needed() {
    let mut without = row();
    without.refresh_token = " \n".to_string();
    let error = build_credentials("idc", without).unwrap_err();
    assert!(matches!(error, DetectError::MissingRefreshToken));
    assert_eq!(error.message("db"), "refresh_token is missing from the Kiro CLI database");
}

#[test]
fn idc_login_needs_its_client() {
    for blank_id in [true, false] {
        let mut without = row();
        if blank_id {
            without.client_id = " ".to_string();
        } else {
            without.client_secret = String::new();
        }
        let error = build_credentials("idc", without).unwrap_err();
        assert!(matches!(error, DetectError::MissingClient));
        assert_eq!(
            error.message("db"),
            "client_id/client_secret are missing from the Kiro CLI database"
        );
    }
}

#[test]
fn rows_are_found_in_output() {
    assert!(has_row("1\n"));
    assert!(!has_row(" \r\n"));
    assert!(!has_row(""));
}

#[test]
fn non_empty_trims() {
    assert_eq!(non_empty(" a b ".to_string()), Some("a b".to_string()));
    assert_eq!(non_empty("\u{a0}".to_string()), None);
}

#[test]
fn export_rows_are_split_at_tabs() {
    let row = query_export_row("a\tr\t1\tus\tid\tsecret\textra\r\n\n").unwrap();
    assert_eq!(row.access_token, "a");
    assert_eq!(row.refresh_token, "r");
    assert_eq!(row.expires_raw, "1");
    assert_eq!(row.region, "us");
    assert_eq!(row.client_id, "id");
    assert_eq!(row.client_secret, "secret");
}

#[test]
fn missing_export_fields_are_empty() {
    let row = query_export_row("\tr").unwrap();
    assert_eq!(row.access_token, "");
    assert_eq!(row.refresh_token, "r");
    assert_eq!(row.expires_raw, "");
    assert_eq!(row.client_secret, "");
}

#[test]
fn only_the_line_end_is_trimmed_from_an_export_row() {
    let row = query_export_row(" a\tr \r\n").unwrap();
    assert_eq!(row.access_token, " a");
    assert_eq!(row.refresh_token, "r ");
}

#[test]
fn empty_export_is_an_error() {
    let error = query_export_row("\r\n").unwrap_err();
    assert!(matches!(error, DetectError::NoExportRow));
    assert_eq!(
        error.message("/x/data.sqlite3"),
        "no Kiro CLI auth rows could be exported from /x/data.sqlite3"
    );
}

#[test]
fn database_paths_have_an_order() {
    let env = || Environment {
        kiro_cli_db: Some(PathBuf::from("/named.db")),
        home: Some(PathBuf::from("/home/u")),
        user_profile: Some(PathBuf::from("/profile")),
    };
    assert_eq!(
        default_db_path(Some(PathBuf::from("/asked.db")), env()),
        Some(PathBuf::from("/asked.db"))
    );
    assert_eq!(default_db_path(None, env()), Some(PathBuf::from("/named.db")));

    let mut without_name = env();
    without_name.kiro_cli_db = None;
    assert_eq!(
        default_db_path(None, without_name),
        Some(PathBuf::from("/home/u/.local/share/kiro-cli/data.sqlite3"))
    );

    let mut without_home = env();
    without_home.kiro_cli_db = None;
    without_home.home = None;
    assert_eq!(
        default_db_path(None, without_home),
        Some(PathBuf::from("/profile/.local/share/kiro-cli/data.sqlite3"))
    );

    assert_eq!(default_db_path(None, no_environment()), None);
}

#[test]
fn lookup_without_a_path_or_a_file_finds_nothing() {
    assert!(matches!(
        detect_local_credentials(no_environment()),
        Detection::Finished(None)
    ));
    let started = detect_local_credentials(Environment {
        kiro_cli_db: Some(PathBuf::from("/named.db")),
        home: None,
        user_profile: None,
    });
    let (ended, asked) = run(started, false, |_| panic!("no query without a file"));
    assert!(matches!(ended, Detection::Finished(None)));
    assert!(asked.is_empty());
}

fn both_logins(query: Query) -> Reply {
    Ok(match query {
        Query::IdcToken | Query::IdcDevice | Query::SocialToken => "1\n",
        Query::IdcExport => "access\trefresh\t1700000000\tus-east-1\tclient\tsecret\n",
        Query::SocialExport => "a\tr\t\t\t\t\n",
    }
    .to_string())
}

#[test]
fn lookup_prefers_the_idc_login() {
    let (ended, asked) = detect_at("/k.db", both_logins);
    match ended {
        Detection::Finished(Some(found)) => {
            assert_eq!(found.db_path, PathBuf::from("/k.db"));
            assert_eq!(found.credentials.auth_method.as_deref(), Some("idc"));
            assert_eq!(found.credentials.refresh_token.as_deref(), Some("refresh"));
            assert_eq!(
                found.credentials.expires_at.as_deref(),
                Some("2023-11-14T22:13:20+00:00")
            );
        }
        other => panic!("{:?}", other),
    }
    assert_eq!(
        asked,
        vec![Query::IdcToken, Query::IdcDevice, Query::SocialToken, Query::IdcExport]
    );
}

#[test]
fn lookup_falls_back_to_the_social_login() {
    let (ended, asked) = detect_at("/k.db", |query| match query {
        Query::IdcDevice => Ok("\n".to_string()),
        other => both_logins(other),
    });
    match ended {
        Detection::Finished(Some(found)) => {
            assert_eq!(found.credentials.auth_method.as_deref(), Some("social"));
            assert_eq!(found.credentials.refresh_token.as_deref(), Some("r"));
            assert_eq!(found.credentials.region, None);
        }
        other => panic!("{:?}", other),
    }
    assert_eq!(asked.last(), Some(&Query::SocialExport));
}

#[test]
fn half_an_idc_login_is_an_error() {
    for present in [Query::IdcToken, Query::IdcDevice] {
        let replies: fn(Query) -> Reply = if present == Query::IdcToken {
            |query| Ok(if query == Query::IdcToken { "1" } else { "" }.to_string())
        } else {
            |query| Ok(if query == Query::IdcDevice { "1" } else { "" }.to_string())
        };
        match detect_at("/k.db", replies).0 {
            Detection::Failed(failure) => {
                assert_eq!(failure.db_path, PathBuf::from("/k.db"));
                assert!(matches!(failure.error, DetectError::IncompleteIdcRows));
                assert_eq!(
                    failure.message(),
                    "incomplete Kiro CLI IdC auth rows were found in /k.db"
                );
            }
            other => panic!("{:?}", other),
        }
    }
}

#[test]
fn empty_database_gives_nothing() {
    let (ended, asked) = detect_at("/k.db", |_| Ok("\n".to_string()));
    assert!(matches!(ended, Detection::Finished(None)));
    assert_eq!(asked.len(), 3);
}

#[test]
fn failed_query_ends_the_lookup() {
    let (ended, asked) = detect_at("/k.db", |query| match query {
        Query::IdcDevice => Err(DetectError::SqliteFailed { stderr: "locked".to_string() }),
        other => both_logins(other),
    });
    match ended {
        Detection::Failed(failure) => assert_eq!(
            failure.message(),
            "sqlite3 failed while reading /k.db: locked"
        ),
        other => panic!("{:?}", other),
    }
    assert_eq!(asked, vec![Query::IdcToken, Query::IdcDevice]);
}

#[test]
fn export_without_a_row_ends_the_lookup() {
    let (ended, _) = detect_at("/k.db", |query| match query {
        Query::IdcExport => Ok("\n".to_string()),
        other => both_logins(other),
    });
    assert!(matches!(
        ended,
        Detection::Failed(failure) if matches!(failure.error, DetectError::NoExportRow)
    ));
}

#[test]
fn loading_begins_with_the_idc_token() {
    let state = load_from_db();
    assert_eq!(state.query(), Query::IdcToken);
    match state.answered(Ok("1".to_string())) {
        LoadStep::Ask(next) => assert_eq!(next.query(), Query::IdcDevice),
        other => panic!("{:?}", other),
    }
}

#[test]
fn queries_have_their_sql() {
    assert_eq!(
        Query::IdcToken.sql(),
        "SELECT 1 FROM auth_kv WHERE key IN ('kirocli:odic:token', 'kirocli:oidc:token') LIMIT 1;"
    );
    assert_eq!(
        Query::IdcDevice.sql(),
        "SELECT 1 FROM auth_kv WHERE key IN ('kirocli:odic:device-registration', 'kirocli:oidc:device-registration') LIMIT 1;"
    );
    assert_eq!(
        Query::SocialToken.sql(),
        "SELECT 1 FROM auth_kv WHERE key = 'kirocli:social:token' LIMIT 1;"
    );
    assert!(Query::IdcExport.sql().ends_with("FROM token_row t\nCROSS JOIN device_row d;\n"));
    assert!(Query::SocialExport.sql().ends_with("WHERE key = 'kirocli:social:token'\nLIMIT 1;\n"));
}

#[test]
fn trimming_twice_changes_nothing() {
    for raw in ["  a b\u{2003}", "x", "\u{85}\u{1680}y\u{202f}", "\u{200b}z"] {
        let once = non_empty(raw.to_string()).unwrap();
        assert_eq!(non_empty(once.clone()), Some(once.clone()));
        assert!(raw.contains(&once));
    }
    // A zero-width space is no whitespace.
    assert_eq!(non_empty(" \u{200b} ".to_string()), Some("\u{200b}".to_string()));
}

#[test]
fn blank_means_only_whitespace() {
    assert_eq!(non_empty("\t\u{b}\u{c}\r\n \u{2028}\u{2029}\u{205f}".to_string()), None);
    assert_eq!(non_empty("\t.\t".to_string()), Some(".".to_string()));
}

#[test]
fn printed_rows_are_read_back() {
    let fields = ["a a", "", "2025-01-01T00:00:00Z", "us-east-1\n", "", "s\u{e9}cret"];
    let row = query_export_row(&format!("{}\n", fields.join("\t"))).unwrap();
    assert_eq!(
        [
            row.access_token.as_str(),
            row.refresh_token.as_str(),
            row.expires_raw.as_str(),
            row.region.as_str(),
            row.client_id.as_str(),
            row.client_secret.as_str(),
        ],
        fields
    );
}

#[test]
fn lookup_is_a_lookup_without_an_override() {
    let path = |s: &str| Some(PathBuf::from(s));
    for (kiro_cli_db, home, user_profile) in [
        (path("/named.db"), path("/home/u"), path("/profile")),
        (None, path("/home/u"), path("/profile")),
        (None, None, path("/profile")),
        (None, None, None),
    ] {
        let env = || Environment {
            kiro_cli_db: kiro_cli_db.clone(),
            home: home.clone(),
            user_profile: user_profile.clone(),
        };
        let (plain, plain_asked) = run(detect_local_credentials(env()), true, both_logins);
        let (from, from_asked) =
            run(detect_local_credentials_from(None, env()), true, both_logins);
        assert_eq!(format!("{:?}", plain), format!("{:?}", from));
        assert_eq!(plain_asked, from_asked);
    }
}

#[test]
fn sqlite_is_called_for_tab_separated_rows() {
    assert_eq!(SQLITE_PROGRAM, "sqlite3");
    let path = PathBuf::from("/k.db");
    for query in [Query::IdcToken, Query::SocialExport] {
        match sqlite_arguments(&path, query).as_slice() {
            [SqliteArg::Text(first), SqliteArg::Text(second), SqliteArg::Path(third), SqliteArg::Text(fourth)] =>
            {
                assert_eq!(*first, "-tabs");
                assert_eq!(*second, "-noheader");
                assert_eq!(*third, &path);
                assert_eq!(*fourth, query.sql());
            }
            other => panic!("{:?}", other),
        }
    }
}

#[test]
fn open_query_tells_its_arguments() {
    let started = detect_local_credentials_from(Some(PathBuf::from("/k.db")), no_environment());
    match started {
        Detection::CheckFile(check) => match check.checked(true) {
            Detection::RunQuery(open) => assert_eq!(
                format!("{:?}", open.arguments()),
                format!("{:?}", sqlite_arguments(&PathBuf::from("/k.db"), Query::IdcToken))
            ),
            other => panic!("{:?}", other),
        },
        other => panic!("{:?}", other),
    }
}

#[test]
fn rows_are_read_back_with_any_line_end() {
    for end in ["", "\n", "\r\n", "\n\n"] {
        let row = query_export_row(&format!("a\tr\t\t\tid\ts{}", end)).unwrap();
        assert_eq!(row.access_token, "a");
        assert_eq!(row.client_secret, "s");
    }
}

#[test]
fn detected_clients_are_not_blank() {
    match detect_at("/k.db", both_logins).0 {
        Detection::Finished(Some(found)) => {
            assert_eq!(found.credentials.client_id.as_deref(), Some("client"));
            assert_eq!(found.credentials.client_secret.as_deref(), Some("secret"));
        }
        other => panic!("{:?}", other),
    }
    let (ended, _) = detect_at("/k.db", |query| match query {
        Query::IdcExport => Ok("a\tr\t\t\t \tsecret\n".to_string()),
        other => both_logins(other),
    });
    assert!(matches!(
        ended,
        Detection::Failed(failure) if matches!(failure.error, DetectError::MissingClient)
    ));
}
