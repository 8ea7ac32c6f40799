//! Import of detected credentials into a credentials file.
//!
//! An import looks the credentials up, reads the file, and writes it again with
//! the credentials added, unless they are there already.
//! [`import_kiro_cli_credentials`] takes the result of the lookup; each further
//! step takes the result of the file operation that the step before asked for.

use std::path::PathBuf;
use vstd::prelude::*;
use crate::cli_credentials;
use crate::cli_credentials::DetectedCredentials;
use crate::credentials::{CredentialsConfig, CredentialsView, KiroCredentials};
use crate::detect_error::DetectFailure;
use crate::save;
use crate::save::SaveError;
use crate::strings;

verus! {

/// Both values are there, not blank, and equal up to outer whitespace.
pub open spec fn same_value(left: Option<Seq<char>>, right: Option<Seq<char>>) -> bool {
    match (left, right) {
        (Some(left), Some(right)) => !strings::is_blank(left) && strings::trimmed(left)
            == strings::trimmed(right),
        _ => false,
    }
}

/// Decides whether both values are there, not blank, and equal up to outer
/// whitespace.
pub fn same_non_empty_value(left: &Option<String>, right: &Option<String>) -> (r: bool)
    ensures
        r == same_value(strings::text_of(*left), strings::text_of(*right)),
{
    match (left, right) {
        (Some(left), Some(right)) => {
            let left = left.as_str().trim();
            let right = right.as_str().trim();
            !left.is_empty() && left.to_owned() == right.to_owned()
        },
        _ => false,
    }
}

/// Two credentials are the same login: they have the same refresh token.
pub open spec fn is_same_login(left: CredentialsView, right: CredentialsView) -> bool {
    same_value(left.refresh_token, right.refresh_token)
}

/// Decides whether two credentials are the same login.
pub fn same_credential(left: &KiroCredentials, right: &KiroCredentials) -> (r: bool)
    ensures
        r == is_same_login(left@, right@),
{
    same_non_empty_value(&left.refresh_token, &right.refresh_token)
}

/// The list holds the login.
pub open spec fn holds_login(list: Seq<KiroCredentials>, login: CredentialsView) -> bool {
    exists|i: int| 0 <= i < list.len() && is_same_login((#[trigger] list[i])@, login)
}

fn is_listed(list: &Vec<KiroCredentials>, login: &KiroCredentials) -> (r: bool)
    ensures
        r == holds_login(list@, login@),
{
    for i in 0..list.len()
        invariant
            forall|j: int| 0 <= j < i ==> !is_same_login((#[trigger] list@[j])@, login@),
    {
        if same_credential(&list[i], login) {
            return true;
        }
    }
    false
}

/// How a successful import ended.
#[derive(Debug)]
pub enum ImportOutcome {
    /// The file held the credentials already and was left alone.
    AlreadyPresent,
    /// The file was written with the credentials of this database added.
    Imported { db_path: PathBuf },
}

/// Why an import failed.
#[derive(Debug)]
pub enum ImportError {
    /// The lookup failed.
    Detection(DetectFailure),
    /// The lookup found nothing.
    NothingDetected,
    /// The credentials file could not be read.
    Load { cause: String },
    /// The credentials file could not be written.
    Save(SaveError),
}

/// Credentials that wait for the content of the file.
#[derive(Debug)]
pub struct PendingLoad {
    pub detected: DetectedCredentials,
}

/// The new content of the file, to be written.
#[derive(Debug)]
pub struct PendingSave {
    pub credentials: Vec<KiroCredentials>,
    pub db_path: PathBuf,
}

/// The next step of an import.
#[derive(Debug)]
pub enum Import {
    /// Read the file.
    LoadFile(PendingLoad),
    /// Write the file.
    SaveFile(PendingSave),
    /// The import is over.
    Finished(ImportOutcome),
    /// The import failed.
    Failed(ImportError),
}

/// Begins an import with the result of the lookup.
pub fn import_kiro_cli_credentials(
    detected: Result<Option<DetectedCredentials>, DetectFailure>,
) -> (r: Import)
    ensures
        r == (match detected {
            Ok(Some(found)) => Import::LoadFile(PendingLoad { detected: found }),
            Ok(None) => Import::Failed(ImportError::NothingDetected),
            Err(failure) => Import::Failed(ImportError::Detection(failure)),
        }),
{
    match detected {
        Ok(Some(found)) => Import::LoadFile(PendingLoad { detected: found }),
        Ok(None) => Import::Failed(ImportError::NothingDetected),
        Err(failure) => Import::Failed(ImportError::Detection(failure)),
    }
}

/// `r` is the step that follows reading the file: credentials that it holds
/// already end the import, others are added after those that it holds.
pub open spec fn follows_load(
    detected: DetectedCredentials,
    file: Result<CredentialsConfig, String>,
    r: Import,
) -> bool {
    match file {
        Err(cause) => r == Import::Failed(ImportError::Load { cause }),
        Ok(config) => if holds_login(config.list(), detected.credentials@) {
            r == Import::Finished(ImportOutcome::AlreadyPresent)
        } else {
            r matches Import::SaveFile(save) && save.credentials@ == config.list().push(
                detected.credentials,
            ) && save.db_path == detected.db_path
        },
    }
}

impl PendingLoad {
    /// Goes on with the content of the file, or with the reason why it could not
    /// be read.
    pub fn loaded(self, file: Result<CredentialsConfig, String>) -> (r: Import)
        ensures
            follows_load(self.detected, file, r),
    {
        let mut credentials = match file {
            Ok(config) => config.into_credentials(),
            Err(cause) => return Import::Failed(ImportError::Load { cause }),
        };
        if is_listed(&credentials, &self.detected.credentials) {
            return Import::Finished(ImportOutcome::AlreadyPresent);
        }
        credentials.push(self.detected.credentials);
        Import::SaveFile(PendingSave { credentials, db_path: self.detected.db_path })
    }
}

impl PendingSave {
    /// Goes on with the result of writing the file.
    pub fn saved(self, outcome: Result<(), SaveError>) -> (r: Import)
        ensures
            r == (match outcome {
                Ok(_) => Import::Finished(ImportOutcome::Imported { db_path: self.db_path }),
                Err(error) => Import::Failed(ImportError::Save(error)),
            }),
    {
        match outcome {
            Ok(_) => Import::Finished(ImportOutcome::Imported { db_path: self.db_path }),
            Err(error) => Import::Failed(ImportError::Save(error)),
        }
    }
}

/// `r` is the message for a failed import into the file at `credentials_path`.
pub open spec fn is_import_message(
    error: ImportError,
    credentials_path: Seq<char>,
    r: Seq<char>,
) -> bool {
    match error {
        ImportError::Detection(failure) => failure.is_full_message(r),
        ImportError::NothingDetected => r
            == "未检测到可导入的 Kiro CLI 登录凭据；可用 --kiro-cli-db 或 KIRO_CLI_DB 指定数据库路径"@,
        ImportError::Load { cause } => r == "加载凭据文件失败: "@ + credentials_path + ": "@
            + cause@,
        ImportError::Save(error) => r == save::save_message_text(error, credentials_path),
    }
}

impl ImportError {
    /// The message for a failed import into the file at `credentials_path`.
    pub fn message(&self, credentials_path: &str) -> (r: String)
        ensures
            is_import_message(*self, credentials_path@, r@),
    {
        match self {
            ImportError::Detection(failure) => failure.full_message(),
            ImportError::NothingDetected =>
                "未检测到可导入的 Kiro CLI 登录凭据；可用 --kiro-cli-db 或 KIRO_CLI_DB 指定数据库路径".to_owned(),
            ImportError::Load { cause } => "加载凭据文件失败: ".to_owned().concat(
                credentials_path,
            ).concat(": ").concat(cause.as_str()),
            ImportError::Save(error) => error.message(credentials_path),
        }
    }
}

/// Being the same login is symmetric and transitive, and credentials are the
/// same login as themselves exactly when they have a refresh token that is not
/// blank.
pub proof fn law_same_login_is_a_partial_equivalence(
    a: CredentialsView,
    b: CredentialsView,
    c: CredentialsView,
)
    ensures
        is_same_login(a, b) == is_same_login(b, a),
        is_same_login(a, b) && is_same_login(b, c) ==> is_same_login(a, c),
        is_same_login(a, a) == (a.refresh_token is Some && !strings::is_blank(a.refresh_token->0)),
{
}

/// An import adds one credential at most, after the others, and leaves those
/// alone.
pub proof fn law_import_keeps_what_the_file_holds(
    detected: DetectedCredentials,
    config: CredentialsConfig,
    r: Import,
)
    requires
        follows_load(detected, Ok(config), r),
    ensures
        r matches Import::SaveFile(save) ==> {
            &&& save.credentials@.len() == config.list().len() + 1
            &&& save.credentials@.take(config.list().len() as int) == config.list()
            &&& save.credentials@.last() == detected.credentials
        },
{
    if let Import::SaveFile(save) = r {
        assert(save.credentials@.take(config.list().len() as int) =~= config.list());
    }
}

/// Importing a complete login a second time, into the file that the first import
/// wrote, changes nothing.
pub proof fn law_second_import_finds_the_login(
    detected: DetectedCredentials,
    config: CredentialsConfig,
    first: Import,
    written: CredentialsConfig,
    second: Import,
)
    requires
        cli_credentials::is_complete_login(detected.credentials@),
        follows_load(detected, Ok(config), first),
        first matches Import::SaveFile(save) ==> written.list() == save.credentials@,
        first is Finished ==> written.list() == config.list(),
        follows_load(detected, Ok(written), second),
    ensures
        second == Import::Finished(ImportOutcome::AlreadyPresent),
{
    if let Import::SaveFile(save) = first {
        assert(written.list()[config.list().len() as int] == detected.credentials);
        assert(is_same_login(detected.credentials@, detected.credentials@));
    }
}

/// No two positions of the list hold the same login.
pub open spec fn has_no_duplicate_login(list: Seq<KiroCredentials>) -> bool {
    forall|i: int, j: int|
        0 <= i < j < list.len() ==> !is_same_login((#[trigger] list[i])@, (#[trigger] list[j])@)
}

/// An import brings no duplicate into a file without one.
pub proof fn law_import_brings_no_duplicate(
    detected: DetectedCredentials,
    config: CredentialsConfig,
    r: Import,
)
    requires
        follows_load(detected, Ok(config), r),
        has_no_duplicate_login(config.list()),
    ensures
        r matches Import::SaveFile(save) ==> has_no_duplicate_login(save.credentials@),
{
}

} // verus!
