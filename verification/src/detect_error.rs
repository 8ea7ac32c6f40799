//! What can go wrong while credentials are looked up in the login database.

use std::path::PathBuf;
use vstd::prelude::*;
use crate::paths;

verus! {

/// Why a lookup in the Kiro CLI database failed.
#[derive(Debug)]
pub enum DetectError {
    /// `sqlite3` could not be started.
    SqliteNotRun { cause: String },
    /// `sqlite3` ended with a failure and this on its error stream.
    SqliteFailed { stderr: String },
    /// `sqlite3` wrote something other than UTF-8.
    NonUtf8Output { cause: String },
    /// Only one of the two IdC rows is there.
    IncompleteIdcRows,
    /// The export query returned no row.
    NoExportRow,
    /// The exported row has no refresh token.
    MissingRefreshToken,
    /// The exported IdC row lacks the client id or the client secret.
    MissingClient,
}

/// A lookup failure over texts.
pub enum DetectErrorView {
    SqliteNotRun { cause: Seq<char> },
    SqliteFailed { stderr: Seq<char> },
    NonUtf8Output { cause: Seq<char> },
    IncompleteIdcRows,
    NoExportRow,
    MissingRefreshToken,
    MissingClient,
}

impl View for DetectError {
    type V = DetectErrorView;

    open spec fn view(&self) -> DetectErrorView {
        match self {
            DetectError::SqliteNotRun { cause } => DetectErrorView::SqliteNotRun { cause: cause@ },
            DetectError::SqliteFailed { stderr } => DetectErrorView::SqliteFailed {
                stderr: stderr@,
            },
            DetectError::NonUtf8Output { cause } => DetectErrorView::NonUtf8Output {
                cause: cause@,
            },
            DetectError::IncompleteIdcRows => DetectErrorView::IncompleteIdcRows,
            DetectError::NoExportRow => DetectErrorView::NoExportRow,
            DetectError::MissingRefreshToken => DetectErrorView::MissingRefreshToken,
            DetectError::MissingClient => DetectErrorView::MissingClient,
        }
    }
}

/// The message for a failure on the database at `db_path`.
pub open spec fn message_text(error: DetectErrorView, db_path: Seq<char>) -> Seq<char> {
    match error {
        DetectErrorView::SqliteNotRun { .. } =>
            "failed to run sqlite3 while auto-detecting Kiro CLI credentials; install sqlite3 or provide credentials.json explicitly"@,
        DetectErrorView::SqliteFailed { stderr } => "sqlite3 failed while reading "@ + db_path
            + ": "@ + stderr,
        DetectErrorView::NonUtf8Output { .. } => "sqlite3 returned non-UTF-8 output"@,
        DetectErrorView::IncompleteIdcRows => "incomplete Kiro CLI IdC auth rows were found in "@
            + db_path,
        DetectErrorView::NoExportRow => "no Kiro CLI auth rows could be exported from "@ + db_path,
        DetectErrorView::MissingRefreshToken =>
            "refresh_token is missing from the Kiro CLI database"@,
        DetectErrorView::MissingClient =>
            "client_id/client_secret are missing from the Kiro CLI database"@,
    }
}

/// The message with what caused the failure, where that is known.
pub open spec fn full_message_text(error: DetectErrorView, db_path: Seq<char>) -> Seq<char> {
    match error {
        DetectErrorView::SqliteNotRun { cause } => message_text(error, db_path) + ": "@ + cause,
        DetectErrorView::NonUtf8Output { cause } => message_text(error, db_path) + ": "@ + cause,
        _ => message_text(error, db_path),
    }
}

impl DetectError {
    /// The message for a failure on the database whose path reads `db_path`.
    pub fn message(&self, db_path: &str) -> (r: String)
        ensures
            r@ == message_text(self@, db_path@),
    {
        match self {
            DetectError::SqliteNotRun { .. } =>
                "failed to run sqlite3 while auto-detecting Kiro CLI credentials; install sqlite3 or provide credentials.json explicitly".to_owned(),
            DetectError::SqliteFailed { stderr } => "sqlite3 failed while reading ".to_owned().concat(
                db_path,
            ).concat(": ").concat(stderr.as_str()),
            DetectError::NonUtf8Output { .. } => "sqlite3 returned non-UTF-8 output".to_owned(),
            DetectError::IncompleteIdcRows =>
                "incomplete Kiro CLI IdC auth rows were found in ".to_owned().concat(db_path),
            DetectError::NoExportRow =>
                "no Kiro CLI auth rows could be exported from ".to_owned().concat(db_path),
            DetectError::MissingRefreshToken =>
                "refresh_token is missing from the Kiro CLI database".to_owned(),
            DetectError::MissingClient =>
                "client_id/client_secret are missing from the Kiro CLI database".to_owned(),
        }
    }

    /// The message with what caused the failure, where that is known.
    pub fn full_message(&self, db_path: &str) -> (r: String)
        ensures
            r@ == full_message_text(self@, db_path@),
    {
        let message = self.message(db_path);
        match self {
            DetectError::SqliteNotRun { cause } => message.concat(": ").concat(cause.as_str()),
            DetectError::NonUtf8Output { cause } => message.concat(": ").concat(cause.as_str()),
            _ => message,
        }
    }
}

/// A failed lookup and the database that it failed on.
#[derive(Debug)]
pub struct DetectFailure {
    pub db_path: PathBuf,
    pub error: DetectError,
}

impl DetectFailure {
    /// `r` is the message of the failure, with the path of its database.
    pub open spec fn is_message(self, r: Seq<char>) -> bool {
        exists|db_path: Seq<char>| #[trigger]
            paths::is_display(self.db_path, db_path) && r == message_text(self.error@, db_path)
    }

    /// `r` is the message with the path of the database and, where it is known,
    /// what caused the failure.
    pub open spec fn is_full_message(self, r: Seq<char>) -> bool {
        exists|db_path: Seq<char>| #[trigger]
            paths::is_display(self.db_path, db_path) && r == full_message_text(
                self.error@,
                db_path,
            )
    }

    /// The message of the failure.
    pub fn message(&self) -> (r: String)
        ensures
            self.is_message(r@),
    {
        let db_path = paths::display(&self.db_path);
        let r = self.error.message(db_path.as_str());
        proof {
            assert(paths::is_display(self.db_path, db_path@));
        }
        r
    }

    /// The message with what caused the failure, where that is known.
    pub fn full_message(&self) -> (r: String)
        ensures
            self.is_full_message(r@),
    {
        let db_path = paths::display(&self.db_path);
        let r = self.error.full_message(db_path.as_str());
        proof {
            assert(paths::is_display(self.db_path, db_path@));
        }
        r
    }
}

} // verus!
