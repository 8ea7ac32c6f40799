//! From the row that an export query prints to credentials.

use vstd::prelude::*;
use crate::credentials;
use crate::credentials::{CredentialsView, KiroCredentials};
use crate::detect_error::{DetectError, DetectErrorView};
use crate::expiry;
use crate::strings;

verus! {

/// The exported fields of a login, as the database holds them.
#[derive(Debug)]
pub struct ExportRow {
    pub access_token: String,
    pub refresh_token: String,
    pub expires_raw: String,
    pub region: String,
    pub client_id: String,
    pub client_secret: String,
}

/// An exported row over texts.
#[verifier::ext_equal]
pub struct ExportRowView {
    pub access_token: Seq<char>,
    pub refresh_token: Seq<char>,
    pub expires_raw: Seq<char>,
    pub region: Seq<char>,
    pub client_id: Seq<char>,
    pub client_secret: Seq<char>,
}

impl View for ExportRow {
    type V = ExportRowView;

    open spec fn view(&self) -> ExportRowView {
        ExportRowView {
            access_token: self.access_token@,
            refresh_token: self.refresh_token@,
            expires_raw: self.expires_raw@,
            region: self.region@,
            client_id: self.client_id@,
            client_secret: self.client_secret@,
        }
    }
}

/// Decides from the output of a query whether it found a row.
pub fn has_row(output: &str) -> (r: bool)
    ensures
        r == !strings::is_blank(output@),
{
    !output.trim().is_empty()
}

/// The row that an export query printed: its tab-separated fields, where missing
/// ones are empty and further ones are ignored.
pub open spec fn exported_row(output: Seq<char>) -> Result<ExportRowView, DetectErrorView> {
    let row = strings::without_line_end(output);
    let fields = strings::fields_of(row, '\t');
    if row.len() == 0 {
        Err(DetectErrorView::NoExportRow)
    } else {
        Ok(
            ExportRowView {
                access_token: strings::field_at(fields, 0),
                refresh_token: strings::field_at(fields, 1),
                expires_raw: strings::field_at(fields, 2),
                region: strings::field_at(fields, 3),
                client_id: strings::field_at(fields, 4),
                client_secret: strings::field_at(fields, 5),
            },
        )
    }
}

/// An exported row or a failure, over texts.
pub open spec fn row_view(r: Result<ExportRow, DetectError>) -> Result<
    ExportRowView,
    DetectErrorView,
> {
    match r {
        Ok(row) => Ok(row@),
        Err(error) => Err(error@),
    }
}

fn field(fields: &Vec<String>, position: usize) -> (r: String)
    ensures
        r@ == strings::field_at(strings::texts(fields@), position as int),
{
    if position < fields.len() {
        fields[position].clone()
    } else {
        String::new()
    }
}

/// Reads the row that an export query printed.
pub fn query_export_row(output: &str) -> (r: Result<ExportRow, DetectError>)
    ensures
        row_view(r) == exported_row(output@),
{
    let row = strings::trim_line_end(output);
    if row.is_empty() {
        return Err(DetectError::NoExportRow);
    }
    let fields = strings::split_fields(row, '\t');
    Ok(
        ExportRow {
            access_token: field(&fields, 0),
            refresh_token: field(&fields, 1),
            expires_raw: field(&fields, 2),
            region: field(&fields, 3),
            client_id: field(&fields, 4),
            client_secret: field(&fields, 5),
        },
    )
}

/// A value trimmed, or nothing where only whitespace is there.
pub open spec fn non_blank(value: Seq<char>) -> Option<Seq<char>> {
    if strings::is_blank(value) {
        None
    } else {
        Some(strings::trimmed(value))
    }
}

/// Trims a value; a blank one is no value.
pub fn non_empty(value: String) -> (r: Option<String>)
    ensures
        strings::text_of(r) == non_blank(value@),
{
    let trimmed = value.as_str().trim();
    if trimmed.is_empty() {
        None
    } else {
        Some(trimmed.to_owned())
    }
}

/// The credentials that a row gives, with the expiry found for it. A refresh
/// token is needed, and for an IdC login the client id and secret too.
pub open spec fn assembled(
    auth_method: Seq<char>,
    row: ExportRowView,
    expires_at: Option<Seq<char>>,
) -> Result<CredentialsView, DetectErrorView> {
    if strings::is_blank(row.refresh_token) {
        Err(DetectErrorView::MissingRefreshToken)
    } else if auth_method == "idc"@ && (strings::is_blank(row.client_id) || strings::is_blank(
        row.client_secret,
    )) {
        Err(DetectErrorView::MissingClient)
    } else {
        Ok(
            CredentialsView {
                access_token: non_blank(row.access_token),
                refresh_token: Some(row.refresh_token),
                expires_at,
                auth_method: Some(auth_method),
                client_id: non_blank(row.client_id),
                client_secret: non_blank(row.client_secret),
                region: non_blank(row.region),
                auth_region: non_blank(row.region),
                api_region: non_blank(row.region),
                ..credentials::no_credentials()
            },
        )
    }
}

/// The credentials that a row gives.
pub open spec fn built(auth_method: Seq<char>, row: ExportRowView) -> Result<
    CredentialsView,
    DetectErrorView,
> {
    assembled(auth_method, row, expiry::normalized(row.expires_raw))
}

/// Credentials or a failure, over texts.
pub open spec fn credentials_view(r: Result<KiroCredentials, DetectError>) -> Result<
    CredentialsView,
    DetectErrorView,
> {
    match r {
        Ok(found) => Ok(found@),
        Err(error) => Err(error@),
    }
}

/// Makes credentials of an exported row and the expiry found for it.
pub fn assemble_credentials(
    auth_method: &str,
    row: ExportRow,
    expires_at: Option<String>,
) -> (r: Result<KiroCredentials, DetectError>)
    ensures
        credentials_view(r) == assembled(auth_method@, row@, strings::text_of(expires_at)),
{
    if row.refresh_token.as_str().trim().is_empty() {
        return Err(DetectError::MissingRefreshToken);
    }
    if auth_method.to_owned() == "idc".to_owned() && (row.client_id.as_str().trim().is_empty()
        || row.client_secret.as_str().trim().is_empty()) {
        return Err(DetectError::MissingClient);
    }
    let region = non_empty(row.region);
    Ok(
        KiroCredentials {
            access_token: non_empty(row.access_token),
            refresh_token: Some(row.refresh_token),
            expires_at,
            auth_method: Some(auth_method.to_owned()),
            client_id: non_empty(row.client_id),
            client_secret: non_empty(row.client_secret),
            region: region.clone(),
            auth_region: region.clone(),
            api_region: region,
            ..KiroCredentials::default()
        },
    )
}

/// Makes credentials of an exported row.
pub fn build_credentials(auth_method: &str, row: ExportRow) -> (r: Result<
    KiroCredentials,
    DetectError,
>)
    ensures
        credentials_view(r) == built(auth_method@, row@),
{
    let expires_at = expiry::normalize_expires_at(row.expires_raw.as_str());
    assemble_credentials(auth_method, row, expires_at)
}

/// The fields of a row in the order in which an export query prints them.
pub open spec fn row_fields(row: ExportRowView) -> Seq<Seq<char>> {
    seq![
        row.access_token,
        row.refresh_token,
        row.expires_raw,
        row.region,
        row.client_id,
        row.client_secret,
    ]
}

/// A row that is printed with tabs between its fields is read back, whatever
/// carriage returns and line feeds follow it, if no field holds a tab and the
/// last one does not end a line itself.
pub proof fn law_printed_row_is_read_back(row: ExportRowView, line_end: Seq<char>)
    requires
        forall|i: int| 0 <= i < 6 ==> !(#[trigger] row_fields(row)[i]).contains('\t'),
        row.client_secret.len() > 0 ==> row.client_secret.last() != '\r'
            && row.client_secret.last() != '\n',
        strings::is_line_end(line_end),
    ensures
        exported_row(strings::joined_fields(row_fields(row), '\t') + line_end) == Ok::<
            ExportRowView,
            DetectErrorView,
        >(row),
{
    let fields = row_fields(row);
    let line = strings::joined_fields(fields, '\t');
    assert(line == strings::joined_fields(fields.drop_last(), '\t').push('\t')
        + row.client_secret);
    assert(line.last() != '\r' && line.last() != '\n');
    strings::law_line_end_does_not_matter(line, line_end);
    strings::law_joined_fields_split_to_the_fields(fields, '\t');
}

} // verus!
