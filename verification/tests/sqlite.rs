use kiro::detect_error::DetectError;
use kiro::sqlite::{read_run, sqlite_value, RunText, SqliteRun};

fn ended(success: bool, stdout: &[u8], stderr: &[u8]) -> SqliteRun {
    SqliteRun::Ended { success, stdout: stdout.to_vec(), stderr: stderr.to_vec() }
}

#[test]
fn output_is_read_as_utf8() {
    assert_eq!(
        sqlite_value(ended(true, "h\u{e9}\n".as_bytes(), b"warning")).unwrap(),
        "h\u{e9}\n"
    );
}

#[test]
fn output_other_than_utf8_is_an_error() {
    let error = sqlite_value(ended(true, &[0x31, 0xff], b"")).unwrap_err();
    assert!(matches!(error, DetectError::NonUtf8Output { .. }));
    assert_eq!(error.message("db"), "sqlite3 returned non-UTF-8 output");
    assert_eq!(
        error.full_message("db"),
        "sqlite3 returned non-UTF-8 output: invalid utf-8 sequence of 1 bytes from index 1"
    );
}

#[test]
fn failure_tells_its_error_stream() {
    match sqlite_value(ended(false, b"ignored", b" no such table \n")) {
        Err(DetectError::SqliteFailed { stderr }) => assert_eq!(stderr, "no such table"),
        other => panic!("{:?}", other),
    }
    match sqlite_value(ended(false, b"", &[b'a', 0xff, b'b'])) {
        Err(DetectError::SqliteFailed { stderr }) => assert_eq!(stderr, "a\u{fffd}b"),
        other => panic!("{:?}", other),
    }
}

#[test]
fn missing_sqlite_is_an_error() {
    let error = sqlite_value(SqliteRun::NotStarted { cause: "not found".to_string() }).unwrap_err();
    assert!(matches!(error, DetectError::SqliteNotRun { .. }));
    assert_eq!(
        error.message("db"),
        "failed to run sqlite3 while auto-detecting Kiro CLI credentials; install sqlite3 or provide credentials.json explicitly"
    );
    assert_eq!(
        error.full_message("db"),
        "failed to run sqlite3 while auto-detecting Kiro CLI credentials; install sqlite3 or provide credentials.json explicitly: not found"
    );
}

#[test]
fn run_texts_are_read() {
    match read_run(RunText::Failed { stderr: "\tlocked ".to_string() }) {
        Err(DetectError::SqliteFailed { stderr }) => assert_eq!(stderr, "locked"),
        other => panic!("{:?}", other),
    }
    assert_eq!(read_run(RunText::Printed(Ok("1\n".to_string()))).unwrap(), "1\n");
    assert!(matches!(
        read_run(RunText::Printed(Err("fault".to_string()))),
        Err(DetectError::NonUtf8Output { cause }) if cause == "fault"
    ));
    assert!(matches!(
        read_run(RunText::NotStarted { cause: "c".to_string() }),
        Err(DetectError::SqliteNotRun { cause }) if cause == "c"
    ));
}
