use kiro::save::{directory_to_create, save_credentials_list, Save, SaveError};

/// Runs a save on these answers; gives what was written and how it ended.
fn run(
    parent: Option<&str>,
    created: Result<(), &str>,
    serialized: Result<&str, &str>,
    written: Result<(), &str>,
) -> (Option<String>, Result<(), SaveError>) {
    let mut step = save_credentials_list(parent.map(|p| p.to_string()));
    let mut content = None;
    loop {
        step = match step {
            Save::CreateDirectory(pending) => pending.created(created.map_err(|e| e.to_string())),
            Save::Serialize(pending) => pending
                .serialized(serialized.map(|s| s.to_string()).map_err(|e| e.to_string())),
            Save::WriteFile(pending) => {
                content = Some(pending.content.clone());
                pending.written(written.map_err(|e| e.to_string()))
            }
            Save::Finished(outcome) => return (content, outcome),
        };
    }
}

#[test]
fn only_a_named_parent_is_created() {
    assert_eq!(directory_to_create(None), None);
    assert_eq!(directory_to_create(Some(String::new())), None);
    assert_eq!(directory_to_create(Some("d".to_string())), Some("d".to_string()));
    match save_credentials_list(Some("d".to_string())) {
        Save::CreateDirectory(pending) => assert_eq!(pending.directory, "d"),
        other => panic!("{:?}", other),
    }
}

#[test]
fn save_writes_the_serialized_text() {
    let (content, outcome) = run(Some("d"), Ok(()), Ok("[]"), Ok(()));
    assert_eq!(content.as_deref(), Some("[]"));
    assert!(outcome.is_ok());
}

#[test]
fn save_without_a_parent_creates_no_directory() {
    let (content, outcome) = run(Some(""), Err("denied"), Ok("[]"), Ok(()));
    assert_eq!(content.as_deref(), Some("[]"));
    assert!(outcome.is_ok());
}

#[test]
fn failed_directory_leaves_the_file() {
    let (content, outcome) = run(Some("d"), Err("denied"), Err("x"), Ok(()));
    assert_eq!(content, None);
    match outcome {
        Err(SaveError::Directory { directory, cause }) => {
            assert_eq!(directory, "d");
            assert_eq!(cause, "denied");
        }
        other => panic!("{:?}", other),
    }
}

#[test]
fn failed_serialization_leaves_the_file() {
    let (content, outcome) = run(None, Ok(()), Err("bad"), Ok(()));
    assert_eq!(content, None);
    assert!(matches!(outcome, Err(SaveError::Serialize { cause }) if cause == "bad"));
}

#[test]
fn failed_write_is_told() {
    let (content, outcome) = run(Some("d"), Ok(()), Ok("[]"), Err("full"));
    assert_eq!(content.as_deref(), Some("[]"));
    assert!(matches!(outcome, Err(SaveError::Write { cause }) if cause == "full"));
}
