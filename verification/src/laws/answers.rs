//! Laws on what a run of `sqlite3` answers and on the messages for a reader.

use vstd::prelude::*;
use crate::detect_error::{DetectError, DetectFailure};
use crate::import::ImportError;
use crate::paths;
use crate::save::SaveError;
use crate::sqlite;
use crate::sqlite::{Reply, RunText, SqliteRun};
use crate::strings;

verus! {

/// A query has an output exactly when `sqlite3` ended well and printed UTF-8, and
/// the output is just what was printed: encoded again it gives the same bytes.
pub proof fn law_output_is_what_was_printed(run: SqliteRun, r: Reply)
    requires
        call_ensures(sqlite::sqlite_value, (run,), r),
    ensures
        r is Ok <==> run is Ended && run->success && vstd::utf8::valid_utf8(run->stdout@),
        r matches Ok(output) ==> vstd::utf8::encode_utf8(output@) == run->stdout@,
{
    if run is Ended && vstd::utf8::valid_utf8(run->stdout@) {
        vstd::utf8::decode_utf8_encode_utf8(run->stdout@);
    }
}

/// A query without an output tells why: that `sqlite3` could not be started, what
/// it said on its error stream, or that its output is not UTF-8.
pub proof fn law_failure_is_told(run: SqliteRun, r: Reply)
    requires
        call_ensures(sqlite::sqlite_value, (run,), r),
    ensures
        run matches SqliteRun::NotStarted { cause } ==> r matches Err(
            DetectError::SqliteNotRun { cause: told },
        ) && told@ == cause@,
        run matches SqliteRun::Ended { success, stderr, .. } ==> (!success ==> (r matches Err(
            DetectError::SqliteFailed { stderr: told },
        ) && told@ == strings::trimmed(sqlite::lossy_text(stderr@)))),
        run matches SqliteRun::Ended { success, stdout, .. } ==> (success
            && !vstd::utf8::valid_utf8(stdout@) ==> (r matches Err(
            DetectError::NonUtf8Output { cause },
        ) && cause@ == sqlite::utf8_fault(stdout@))),
{
}

/// What a failed run says in UTF-8 on its error stream is told word for word, but
/// for the whitespace around it; what it printed otherwise does not matter.
pub proof fn law_error_stream_is_told(said: Seq<char>, run: SqliteRun, r: Reply)
    requires
        call_ensures(sqlite::sqlite_value, (run,), r),
        run is Ended,
        !run->success,
        run->stderr@ == vstd::utf8::encode_utf8(said),
    ensures
        r matches Err(DetectError::SqliteFailed { stderr }) && stderr@ == strings::trimmed(said),
{
    vstd::utf8::encode_utf8_valid_utf8(said);
    vstd::utf8::encode_utf8_decode_utf8(said);
}

/// Of a run whose streams were read, the output is the answer; a failure is told
/// with its reason.
pub proof fn law_read_run_is_answered(run: RunText, r: Reply)
    requires
        call_ensures(sqlite::read_run, (run,), r),
    ensures
        match run {
            RunText::NotStarted { cause } => r matches Err(
                DetectError::SqliteNotRun { cause: told },
            ) && told@ == cause@,
            RunText::Failed { stderr } => r matches Err(
                DetectError::SqliteFailed { stderr: told },
            ) && told@ == strings::trimmed(stderr@),
            RunText::Printed(Ok(output)) => r matches Ok(told) && told@ == output@,
            RunText::Printed(Err(fault)) => r matches Err(
                DetectError::NonUtf8Output { cause },
            ) && cause@ == fault@,
        },
{
}

/// The message names the database where it speaks of it, and gives what `sqlite3`
/// said.
pub open spec fn reads_as(error: DetectError, db_path: Seq<char>, message: Seq<char>) -> bool {
    match error {
        DetectError::SqliteNotRun { .. } => message
            == "failed to run sqlite3 while auto-detecting Kiro CLI credentials; install sqlite3 or provide credentials.json explicitly"@,
        DetectError::SqliteFailed { stderr } => message == "sqlite3 failed while reading "@
            + db_path + ": "@ + stderr@,
        DetectError::NonUtf8Output { .. } => message == "sqlite3 returned non-UTF-8 output"@,
        DetectError::IncompleteIdcRows => message
            == "incomplete Kiro CLI IdC auth rows were found in "@ + db_path,
        DetectError::NoExportRow => message == "no Kiro CLI auth rows could be exported from "@
            + db_path,
        DetectError::MissingRefreshToken => message
            == "refresh_token is missing from the Kiro CLI database"@,
        DetectError::MissingClient => message
            == "client_id/client_secret are missing from the Kiro CLI database"@,
    }
}

/// The full message is the message, with the cause behind it where one is known.
pub open spec fn adds_cause(error: DetectError, message: Seq<char>, full: Seq<char>) -> bool {
    match error {
        DetectError::SqliteNotRun { cause } => full == message + ": "@ + cause@,
        DetectError::NonUtf8Output { cause } => full == message + ": "@ + cause@,
        _ => full == message,
    }
}

/// The two messages for a failure.
pub proof fn law_messages_of_a_failure(
    error: DetectError,
    db_path: &str,
    message: String,
    full: String,
)
    requires
        call_ensures(DetectError::message, (&error, db_path), message),
        call_ensures(DetectError::full_message, (&error, db_path), full),
    ensures
        reads_as(error, db_path@, message@),
        adds_cause(error, message@, full@),
{
}

/// The messages for a failed lookup name the database that it failed on.
pub proof fn law_messages_name_the_database(
    failure: DetectFailure,
    message: String,
    full: String,
)
    requires
        call_ensures(DetectFailure::message, (&failure,), message),
        call_ensures(DetectFailure::full_message, (&failure,), full),
    ensures
        exists|shown: Seq<char>| #[trigger]
            paths::is_display(failure.db_path, shown) && reads_as(failure.error, shown, message@),
        is_full_message_of(failure, full@),
{
    lemma_message_of(failure, message@);
    lemma_full_message_of(failure, full@);
}

/// `full` is the message of a failed lookup, with the database that it failed on,
/// and the cause behind it where one is known.
pub open spec fn is_full_message_of(failure: DetectFailure, full: Seq<char>) -> bool {
    exists|shown: Seq<char>, message: Seq<char>| #[trigger]
        paths::is_display(failure.db_path, shown) && #[trigger] reads_as(
            failure.error,
            shown,
            message,
        ) && adds_cause(failure.error, message, full)
}

proof fn lemma_message_of(failure: DetectFailure, message: Seq<char>)
    requires
        failure.is_message(message),
    ensures
        exists|shown: Seq<char>| #[trigger]
            paths::is_display(failure.db_path, shown) && reads_as(failure.error, shown, message),
{
    let shown = choose|shown: Seq<char>| #[trigger]
        paths::is_display(failure.db_path, shown) && message
            == crate::detect_error::message_text(failure.error@, shown);
    assert(paths::is_display(failure.db_path, shown));
    assert(reads_as(failure.error, shown, message));
}

proof fn lemma_full_message_of(failure: DetectFailure, full: Seq<char>)
    requires
        failure.is_full_message(full),
    ensures
        is_full_message_of(failure, full),
{
    let shown = choose|shown: Seq<char>| #[trigger]
        paths::is_display(failure.db_path, shown) && full
            == crate::detect_error::full_message_text(failure.error@, shown);
    let message = crate::detect_error::message_text(failure.error@, shown);
    assert(paths::is_display(failure.db_path, shown));
    assert(reads_as(failure.error, shown, message));
    assert(adds_cause(failure.error, message, full));
}

/// The message for a file that could not be written gives the reason, and the
/// directory or the file where it speaks of one.
pub open spec fn save_reads_as(error: SaveError, path: Seq<char>, message: Seq<char>) -> bool {
    match error {
        SaveError::Directory { directory, cause } => message == "创建凭据目录失败: "@ + directory@
            + ": "@ + cause@,
        SaveError::Serialize { cause } => message == "序列化凭据失败"@ + ": "@ + cause@,
        SaveError::Write { cause } => message == "写入凭据文件失败: "@ + path + ": "@ + cause@,
    }
}

/// The message for a file that could not be written.
pub proof fn law_message_of_a_failed_save(error: SaveError, path: &str, r: String)
    requires
        call_ensures(SaveError::message, (&error, path), r),
    ensures
        save_reads_as(error, path@, r@),
{
}

/// The message for a failed import: that of the failed lookup or the failed
/// write, or one of its own.
pub proof fn law_message_of_a_failed_import(error: ImportError, path: &str, r: String)
    requires
        call_ensures(ImportError::message, (&error, path), r),
    ensures
        match error {
            ImportError::Detection(failure) => is_full_message_of(failure, r@),
            ImportError::NothingDetected => r@
                == "未检测到可导入的 Kiro CLI 登录凭据；可用 --kiro-cli-db 或 KIRO_CLI_DB 指定数据库路径"@,
            ImportError::Load { cause } => r@ == "加载凭据文件失败: "@ + path@ + ": "@ + cause@,
            ImportError::Save(failed) => save_reads_as(failed, path@, r@),
        },
{
    if let ImportError::Detection(failure) = error {
        lemma_full_message_of(failure, r@);
    }
}

} // verus!
