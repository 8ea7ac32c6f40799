//! Laws on importing a login into a credentials file, and on writing that file.

use vstd::prelude::*;
use crate::cli_credentials::DetectedCredentials;
use crate::credentials::{CredentialsConfig, CredentialsView, KiroCredentials};
use crate::detect_error::DetectFailure;
use crate::import;
use crate::import::{Import, ImportError, ImportOutcome, PendingLoad, PendingSave};
use crate::save;
use crate::save::{PendingDirectory, PendingSerialize, PendingWrite, Save, SaveError};
use crate::strings;

verus! {

/// Both texts are there, hold more than whitespace, and agree but for the
/// whitespace around them.
pub open spec fn agree(left: Option<String>, right: Option<String>) -> bool {
    &&& left is Some && right is Some
    &&& !strings::is_all_whitespace(left->0@)
    &&& strings::trimmed(left->0@) == strings::trimmed(right->0@)
}

/// Two values are the same exactly when they agree.
pub proof fn law_same_value_means_equal_text(
    left: Option<String>,
    right: Option<String>,
    r: bool,
)
    requires
        call_ensures(import::same_non_empty_value, (&left, &right), r),
    ensures
        r == agree(left, right),
{
    if left is Some {
        strings::law_blank_means_only_whitespace(left->0@);
    }
}

/// Two credentials are the same login exactly when their refresh tokens agree.
pub proof fn law_same_credential_means_equal_tokens(
    left: KiroCredentials,
    right: KiroCredentials,
    r: bool,
)
    requires
        call_ensures(import::same_credential, (&left, &right), r),
    ensures
        r == agree(left.refresh_token, right.refresh_token),
{
    if left.refresh_token is Some {
        strings::law_blank_means_only_whitespace(left.refresh_token->0@);
    }
}

/// The same login has the same refresh token, but for the whitespace around it,
/// and that token is not blank.
pub proof fn law_same_login_has_the_same_token(a: CredentialsView, b: CredentialsView)
    requires
        import::is_same_login(a, b),
    ensures
        a.refresh_token is Some,
        b.refresh_token is Some,
        strings::trimmed(a.refresh_token->0) == strings::trimmed(b.refresh_token->0),
        !strings::is_all_whitespace(a.refresh_token->0),
        !strings::is_all_whitespace(b.refresh_token->0),
{
    strings::law_blank_means_only_whitespace(a.refresh_token->0);
    strings::law_blank_means_only_whitespace(b.refresh_token->0);
}

/// The credentials of a file are the one object, or the elements of the array,
/// in their order.
pub open spec fn content(file: CredentialsConfig) -> Seq<KiroCredentials> {
    if file is Single {
        seq![file->Single_0]
    } else {
        file->Multiple_0@
    }
}

/// An import of a login whose refresh token occurs nowhere in the file goes on
/// to write the file: what it holds, in its order, and then the login.
pub proof fn law_new_login_is_saved(
    pending: PendingLoad,
    file: CredentialsConfig,
    r: Import,
)
    requires
        call_ensures(PendingLoad::loaded, (pending, Ok::<CredentialsConfig, String>(file)), r),
        forall|i: int|
            0 <= i < content(file).len() ==> {
                ||| (#[trigger] content(file)[i]).refresh_token is None
                ||| pending.detected.credentials.refresh_token is None
                ||| strings::trimmed(content(file)[i].refresh_token->0@) != strings::trimmed(
                    pending.detected.credentials.refresh_token->0@,
                )
            },
    ensures
        r is SaveFile,
        r->SaveFile_0.credentials@ == content(file).push(pending.detected.credentials),
        r->SaveFile_0.db_path == pending.detected.db_path,
{
    assert(content(file) =~= file.list());
}

/// An import ends without writing exactly when the refresh token of the login
/// agrees with one in the file.
pub proof fn law_import_decides_by_the_token(
    pending: PendingLoad,
    file: CredentialsConfig,
    r: Import,
)
    requires
        call_ensures(PendingLoad::loaded, (pending, Ok::<CredentialsConfig, String>(file)), r),
    ensures
        r == Import::Finished(ImportOutcome::AlreadyPresent) || r is SaveFile,
        r is Finished <==> exists|i: int|
            0 <= i < content(file).len() && agree(
                (#[trigger] content(file)[i]).refresh_token,
                pending.detected.credentials.refresh_token,
            ),
        r is SaveFile ==> r->SaveFile_0.credentials@ == content(file).push(
            pending.detected.credentials,
        ) && r->SaveFile_0.db_path == pending.detected.db_path,
{
    let login = pending.detected.credentials;
    assert(content(file) =~= file.list());
    assert forall|i: int| 0 <= i < content(file).len() implies import::is_same_login(
        (#[trigger] content(file)[i])@,
        login@,
    ) == agree(content(file)[i].refresh_token, login.refresh_token) by {
        if content(file)[i].refresh_token is Some {
            strings::law_blank_means_only_whitespace(content(file)[i].refresh_token->0@);
        }
    }
    if r is Finished {
        let i = choose|i: int|
            0 <= i < file.list().len() && import::is_same_login(
                (#[trigger] file.list()[i])@,
                login@,
            );
        assert(agree(content(file)[i].refresh_token, login.refresh_token));
    } else {
        assert forall|i: int| 0 <= i < content(file).len() implies !agree(
            (#[trigger] content(file)[i]).refresh_token,
            login.refresh_token,
        ) by {
            assert(!import::is_same_login(file.list()[i]@, login@));
        }
    }
}

/// A file that cannot be read ends the import, with the reason.
pub proof fn law_unreadable_file_ends_the_import(pending: PendingLoad, cause: String, r: Import)
    requires
        call_ensures(PendingLoad::loaded, (pending, Err::<CredentialsConfig, String>(cause)), r),
    ensures
        r matches Import::Failed(ImportError::Load { cause: told }) && told@ == cause@,
{
}

/// An import goes on with what the lookup found; nothing found and a failed
/// lookup end it.
pub proof fn law_import_begins_with_the_lookup(
    detected: Result<Option<DetectedCredentials>, DetectFailure>,
    r: Import,
)
    requires
        call_ensures(import::import_kiro_cli_credentials, (detected,), r),
    ensures
        detected matches Ok(Some(found)) ==> r matches Import::LoadFile(pending)
            && pending.detected == found,
        detected matches Ok(None) ==> r == Import::Failed(ImportError::NothingDetected),
        detected matches Err(failure) ==> r == Import::Failed(ImportError::Detection(failure)),
{
}

/// An import whose file was written tells the database that the login is of; a
/// failed write ends it, with the reason.
pub proof fn law_import_ends_with_the_write(
    pending: PendingSave,
    outcome: Result<(), SaveError>,
    r: Import,
)
    requires
        call_ensures(PendingSave::saved, (pending, outcome), r),
    ensures
        outcome is Ok ==> r == Import::Finished(
            ImportOutcome::Imported { db_path: pending.db_path },
        ),
        outcome matches Err(error) ==> r == Import::Failed(ImportError::Save(error)),
{
}

/// A login that an import wrote is found by the next import of the same refresh
/// token, whatever whitespace is around it, and the file is left alone.
pub proof fn law_saved_login_is_found_again(
    first: PendingLoad,
    second: PendingLoad,
    file: CredentialsConfig,
    r: Import,
    written: CredentialsConfig,
    again: Import,
)
    requires
        call_ensures(PendingLoad::loaded, (first, Ok::<CredentialsConfig, String>(file)), r),
        r is SaveFile,
        content(written) == r->SaveFile_0.credentials@,
        call_ensures(PendingLoad::loaded, (second, Ok::<CredentialsConfig, String>(written)), again),
        agree(first.detected.credentials.refresh_token, second.detected.credentials.refresh_token),
    ensures
        again == Import::Finished(ImportOutcome::AlreadyPresent),
{
    law_import_decides_by_the_token(first, file, r);
    law_import_decides_by_the_token(second, written, again);
    let last = content(file).len() as int;
    assert(content(written)[last] == first.detected.credentials);
}

/// The parent directory of a file is created before it is written, unless it has
/// none or the empty one.
pub proof fn law_parent_is_created_first(
    parent: Option<String>,
    directory: Option<String>,
    r: Save,
)
    requires
        call_ensures(save::directory_to_create, (parent,), directory),
        call_ensures(save::save_credentials_list, (parent,), r),
    ensures
        parent is Some && parent->0@.len() > 0 ==> directory == parent && (
        r matches Save::CreateDirectory(pending) && pending.directory == parent->0),
        parent is None || parent->0@.len() == 0 ==> directory is None && r is Serialize,
{
}

/// After the directory the credentials are serialized; a failure is told with
/// the directory and its reason.
pub proof fn law_directory_leads_to_serialization(
    pending: PendingDirectory,
    outcome: Result<(), String>,
    r: Save,
)
    requires
        call_ensures(PendingDirectory::created, (pending, outcome), r),
    ensures
        outcome is Ok ==> r is Serialize,
        outcome matches Err(reason) ==> r matches Save::Finished(
            Err(SaveError::Directory { directory, cause }),
        ) && directory == pending.directory && cause == reason,
{
}

/// What was serialized is what is written; a failure is told with its reason and
/// nothing is written.
pub proof fn law_serialized_text_is_written(
    pending: PendingSerialize,
    outcome: Result<String, String>,
    r: Save,
)
    requires
        call_ensures(PendingSerialize::serialized, (pending, outcome), r),
    ensures
        outcome matches Ok(text) ==> r matches Save::WriteFile(write) && write.content == text,
        outcome matches Err(reason) ==> r matches Save::Finished(Err(SaveError::Serialize { cause }))
            && cause == reason,
{
}

/// A save ends well exactly when the file was written; a failure is told with
/// its reason.
pub proof fn law_save_ends_with_the_write(
    pending: PendingWrite,
    outcome: Result<(), String>,
    r: Save,
)
    requires
        call_ensures(PendingWrite::written, (pending, outcome), r),
    ensures
        outcome is Ok ==> r == Save::Finished(Ok(())),
        outcome matches Err(reason) ==> r matches Save::Finished(Err(SaveError::Write { cause }))
            && cause == reason,
{
}

} // verus!
