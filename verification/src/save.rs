//! Writing a credentials file.
//!
//! A save creates the directory of the file where there is one to create,
//! serializes the credentials, and only then writes the file; the first failure
//! ends it. [`save_credentials_list`] gives the first step; each further step
//! takes the outcome of the one before.

use vstd::prelude::*;

verus! {

/// Why a credentials file could not be written.
#[derive(Debug)]
pub enum SaveError {
    /// Its directory could not be created.
    Directory { directory: String, cause: String },
    /// The credentials could not be serialized.
    Serialize { cause: String },
    /// The file could not be written.
    Write { cause: String },
}

/// A directory to create.
#[derive(Debug)]
pub struct PendingDirectory {
    pub directory: String,
}

/// Credentials to serialize.
#[derive(Debug)]
pub struct PendingSerialize {}

/// The text to write into the file.
#[derive(Debug)]
pub struct PendingWrite {
    pub content: String,
}

/// The next step of a save.
#[derive(Debug)]
pub enum Save {
    /// Create the directory.
    CreateDirectory(PendingDirectory),
    /// Serialize the credentials.
    Serialize(PendingSerialize),
    /// Write the file.
    WriteFile(PendingWrite),
    /// The save is over.
    Finished(Result<(), SaveError>),
}

/// The directory to create before a file is written: its parent, unless that is
/// the empty path.
pub open spec fn needed_directory(parent: Option<String>) -> Option<String> {
    match parent {
        Some(directory) => if directory@.len() > 0 {
            Some(directory)
        } else {
            None
        },
        None => None,
    }
}

/// The first step of a save into a file with this parent directory.
pub open spec fn save_start(parent: Option<String>) -> Save {
    match needed_directory(parent) {
        Some(directory) => Save::CreateDirectory(PendingDirectory { directory }),
        None => Save::Serialize(PendingSerialize {  }),
    }
}

/// The step that follows the creation of a directory.
pub open spec fn save_created(directory: String, outcome: Result<(), String>) -> Save {
    match outcome {
        Ok(_) => Save::Serialize(PendingSerialize {  }),
        Err(cause) => Save::Finished(Err(SaveError::Directory { directory, cause })),
    }
}

/// The step that follows serialization.
pub open spec fn save_serialized(outcome: Result<String, String>) -> Save {
    match outcome {
        Ok(content) => Save::WriteFile(PendingWrite { content }),
        Err(cause) => Save::Finished(Err(SaveError::Serialize { cause })),
    }
}

/// The step that follows the write.
pub open spec fn save_written(outcome: Result<(), String>) -> Save {
    match outcome {
        Ok(_) => Save::Finished(Ok(())),
        Err(cause) => Save::Finished(Err(SaveError::Write { cause })),
    }
}

/// The directory to create before a file is written.
pub fn directory_to_create(parent: Option<String>) -> (r: Option<String>)
    ensures
        r == needed_directory(parent),
{
    match parent {
        Some(directory) => if directory.as_str().is_empty() {
            None
        } else {
            Some(directory)
        },
        None => None,
    }
}

/// Begins a save into a file with this parent directory.
pub fn save_credentials_list(parent: Option<String>) -> (r: Save)
    ensures
        r == save_start(parent),
{
    match directory_to_create(parent) {
        Some(directory) => Save::CreateDirectory(PendingDirectory { directory }),
        None => Save::Serialize(PendingSerialize {  }),
    }
}

impl PendingDirectory {
    /// Goes on with whether the directory was created.
    pub fn created(self, outcome: Result<(), String>) -> (r: Save)
        ensures
            r == save_created(self.directory, outcome),
    {
        match outcome {
            Ok(_) => Save::Serialize(PendingSerialize {  }),
            Err(cause) => Save::Finished(
                Err(SaveError::Directory { directory: self.directory, cause }),
            ),
        }
    }
}

impl PendingSerialize {
    /// Goes on with the serialized credentials.
    pub fn serialized(self, outcome: Result<String, String>) -> (r: Save)
        ensures
            r == save_serialized(outcome),
    {
        match outcome {
            Ok(content) => Save::WriteFile(PendingWrite { content }),
            Err(cause) => Save::Finished(Err(SaveError::Serialize { cause })),
        }
    }
}

impl PendingWrite {
    /// Goes on with whether the file was written.
    pub fn written(self, outcome: Result<(), String>) -> (r: Save)
        ensures
            r == save_written(outcome),
    {
        match outcome {
            Ok(_) => Save::Finished(Ok(())),
            Err(cause) => Save::Finished(Err(SaveError::Write { cause })),
        }
    }
}

/// The message for a failed write of the file at `credentials_path`.
pub open spec fn save_message_text(error: SaveError, credentials_path: Seq<char>) -> Seq<char> {
    match error {
        SaveError::Directory { directory, cause } => "创建凭据目录失败: "@ + directory@ + ": "@
            + cause@,
        SaveError::Serialize { cause } => "序列化凭据失败"@ + ": "@ + cause@,
        SaveError::Write { cause } => "写入凭据文件失败: "@ + credentials_path + ": "@ + cause@,
    }
}

impl SaveError {
    /// The message for a failed write of the file at `credentials_path`.
    pub fn message(&self, credentials_path: &str) -> (r: String)
        ensures
            r@ == save_message_text(*self, credentials_path@),
    {
        match self {
            SaveError::Directory { directory, cause } => "创建凭据目录失败: ".to_owned().concat(
                directory.as_str(),
            ).concat(": ").concat(cause.as_str()),
            SaveError::Serialize { cause } => "序列化凭据失败".to_owned().concat(": ").concat(
                cause.as_str(),
            ),
            SaveError::Write { cause } => "写入凭据文件失败: ".to_owned().concat(
                credentials_path,
            ).concat(": ").concat(cause.as_str()),
        }
    }
}

/// What the outside world answers to the steps of a save.
pub struct SaveAnswers {
    pub created: Result<(), String>,
    pub serialized: Result<String, String>,
    pub written: Result<(), String>,
}

/// The step that a save reaches after so many answers.
pub open spec fn save_run(step: Save, answers: SaveAnswers, count: nat) -> Save
    decreases count,
{
    if count == 0 {
        step
    } else {
        let next = match step {
            Save::CreateDirectory(pending) => save_created(pending.directory, answers.created),
            Save::Serialize(_) => save_serialized(answers.serialized),
            Save::WriteFile(_) => save_written(answers.written),
            ended => ended,
        };
        save_run(next, answers, (count - 1) as nat)
    }
}

/// How a save ends: with its first failure, in the order directory,
/// serialization, write.
pub open spec fn save_outcome(parent: Option<String>, answers: SaveAnswers) -> Result<
    (),
    SaveError,
> {
    match (needed_directory(parent), answers.created) {
        (Some(directory), Err(cause)) => Err(SaveError::Directory { directory, cause }),
        _ => match (answers.serialized, answers.written) {
            (Err(cause), _) => Err(SaveError::Serialize { cause }),
            (Ok(_), Err(cause)) => Err(SaveError::Write { cause }),
            (Ok(_), Ok(_)) => Ok(()),
        },
    }
}

/// A save ends after at most three answers, with its first failure or well.
pub proof fn law_save_reaches_its_outcome(parent: Option<String>, answers: SaveAnswers)
    ensures
        save_run(save_start(parent), answers, 3) == Save::Finished(save_outcome(parent, answers)),
{
    reveal_with_fuel(save_run, 4);
}

proof fn lemma_ended_save_stays(outcome: Result<(), SaveError>, answers: SaveAnswers, count: nat)
    ensures
        save_run(Save::Finished(outcome), answers, count) == Save::Finished(outcome),
    decreases count,
{
    if count > 0 {
        lemma_ended_save_stays(outcome, answers, (count - 1) as nat);
    }
}

/// The file is left untouched unless its directory is there and the credentials
/// were serialized: only then is a write asked for, of just that text.
pub proof fn law_failed_save_leaves_the_file(
    parent: Option<String>,
    answers: SaveAnswers,
    count: nat,
)
    ensures
        save_run(save_start(parent), answers, count) matches Save::WriteFile(pending) ==> {
            &&& needed_directory(parent) is Some ==> answers.created is Ok
            &&& answers.serialized == Ok::<String, String>(pending.content)
        },
{
    reveal_with_fuel(save_run, 4);
    if count >= 3 {
        let outcome = save_outcome(parent, answers);
        law_save_reaches_its_outcome(parent, answers);
        lemma_save_run_adds(save_start(parent), answers, 3, (count - 3) as nat);
        lemma_ended_save_stays(outcome, answers, (count - 3) as nat);
    }
}

proof fn lemma_save_run_adds(step: Save, answers: SaveAnswers, first: nat, more: nat)
    ensures
        save_run(step, answers, first + more) == save_run(
            save_run(step, answers, first),
            answers,
            more,
        ),
    decreases first,
{
    if first > 0 {
        let next = save_run(step, answers, 1);
        reveal_with_fuel(save_run, 2);
        lemma_save_run_adds(next, answers, (first - 1) as nat, more);
    }
}

} // verus!
