//! Running `sqlite3` and reading what it printed.

use vstd::prelude::*;
use crate::detect_error::{DetectError, DetectErrorView};
use crate::strings;

verus! {

/// The message of the error that `String::from_utf8` of std gives for a byte
/// sequence that is not UTF-8.
pub uninterp spec fn utf8_fault(bytes: Seq<u8>) -> Seq<char>;

/// `String::from_utf8` of std: succeeds on exactly the valid UTF-8 byte
/// sequences, with the characters that they encode. The message of its error is
/// a function of the bytes alone.
#[verifier::external_body]
fn from_utf8(bytes: Vec<u8>) -> (r: Result<String, String>)
    ensures
        r is Ok <==> vstd::utf8::valid_utf8(bytes@),
        r matches Ok(text) ==> text@ == vstd::utf8::decode_utf8(bytes@),
        r matches Err(fault) ==> fault@ == utf8_fault(bytes@),
{
    match String::from_utf8(bytes) {
        Ok(text) => Ok(text),
        Err(error) => Err(error.to_string()),
    }
}

/// What `String::from_utf8_lossy` of std reads in a byte sequence.
pub uninterp spec fn lossy_text(bytes: Seq<u8>) -> Seq<char>;

/// `String::from_utf8_lossy` of std: a function of the bytes alone, and on valid
/// UTF-8 the characters that they encode.
#[verifier::external_body]
fn from_utf8_lossy(bytes: &[u8]) -> (r: String)
    ensures
        r@ == lossy_text(bytes@),
        vstd::utf8::valid_utf8(bytes@) ==> r@ == vstd::utf8::decode_utf8(bytes@),
{
    String::from_utf8_lossy(bytes).into_owned()
}

/// How a run of `sqlite3` ended.
#[derive(Debug)]
pub enum SqliteRun {
    /// It could not be started.
    NotStarted { cause: String },
    /// It ended, and printed this.
    Ended { success: bool, stdout: Vec<u8>, stderr: Vec<u8> },
}

/// How a run of `sqlite3` ended, with what it printed read as text.
#[derive(Debug)]
pub enum RunText {
    /// It could not be started.
    NotStarted { cause: String },
    /// It ended with a failure and this on its error stream.
    Failed { stderr: String },
    /// It printed this, or something other than UTF-8, with the fault.
    Printed(Result<String, String>),
}

/// The end of a run over texts.
pub enum RunTextView {
    NotStarted { cause: Seq<char> },
    Failed { stderr: Seq<char> },
    Printed(Result<Seq<char>, Seq<char>>),
}

impl View for RunText {
    type V = RunTextView;

    open spec fn view(&self) -> RunTextView {
        match self {
            RunText::NotStarted { cause } => RunTextView::NotStarted { cause: cause@ },
            RunText::Failed { stderr } => RunTextView::Failed { stderr: stderr@ },
            RunText::Printed(Ok(output)) => RunTextView::Printed(Ok(output@)),
            RunText::Printed(Err(fault)) => RunTextView::Printed(Err(fault@)),
        }
    }
}

/// What a run printed, read as text. Of the two streams only the one that
/// matters is read: the error stream of a failed run, the output of another.
pub open spec fn run_text(run: SqliteRun) -> RunTextView {
    match run {
        SqliteRun::NotStarted { cause } => RunTextView::NotStarted { cause: cause@ },
        SqliteRun::Ended { success, stdout, stderr } => if !success {
            RunTextView::Failed { stderr: lossy_text(stderr@) }
        } else if vstd::utf8::valid_utf8(stdout@) {
            RunTextView::Printed(Ok(vstd::utf8::decode_utf8(stdout@)))
        } else {
            RunTextView::Printed(Err(utf8_fault(stdout@)))
        },
    }
}

/// What a query answered: its output, or why there is none.
pub type Reply = Result<String, DetectError>;

/// An answer over texts.
pub type ReplyView = Result<Seq<char>, DetectErrorView>;

/// An answer over texts.
pub open spec fn reply_view(reply: Reply) -> ReplyView {
    match reply {
        Ok(output) => Ok(output@),
        Err(error) => Err(error@),
    }
}

/// The answer that a run gives: a failed one is told by its trimmed error
/// stream, a successful one gives its output, which must be UTF-8.
pub open spec fn text_reply(run: RunTextView) -> ReplyView {
    match run {
        RunTextView::NotStarted { cause } => Err(DetectErrorView::SqliteNotRun { cause }),
        RunTextView::Failed { stderr } => Err(
            DetectErrorView::SqliteFailed { stderr: strings::trimmed(stderr) },
        ),
        RunTextView::Printed(Ok(output)) => Ok(output),
        RunTextView::Printed(Err(fault)) => Err(DetectErrorView::NonUtf8Output { cause: fault }),
    }
}

/// Reads the answer of a run whose streams were read as text.
pub fn read_run(run: RunText) -> (r: Reply)
    ensures
        reply_view(r) == text_reply(run@),
{
    match run {
        RunText::NotStarted { cause } => Err(DetectError::SqliteNotRun { cause }),
        RunText::Failed { stderr } => Err(
            DetectError::SqliteFailed { stderr: stderr.as_str().trim().to_owned() },
        ),
        RunText::Printed(Ok(output)) => Ok(output),
        RunText::Printed(Err(fault)) => Err(DetectError::NonUtf8Output { cause: fault }),
    }
}

/// Reads the answer of a run of `sqlite3`. Where the error stream of a failed
/// run is UTF-8, it is told as it was written.
pub fn sqlite_value(run: SqliteRun) -> (r: Reply)
    ensures
        reply_view(r) == text_reply(run_text(run)),
        run matches SqliteRun::Ended { success, stderr, .. } ==> (!success
            && vstd::utf8::valid_utf8(stderr@) ==> reply_view(r) == text_reply(
            RunTextView::Failed { stderr: vstd::utf8::decode_utf8(stderr@) },
        )),
{
    match run {
        SqliteRun::NotStarted { cause } => read_run(RunText::NotStarted { cause }),
        SqliteRun::Ended { success, stdout, stderr } => {
            if !success {
                read_run(RunText::Failed { stderr: from_utf8_lossy(stderr.as_slice()) })
            } else {
                read_run(RunText::Printed(from_utf8(stdout)))
            }
        },
    }
}

} // verus!
