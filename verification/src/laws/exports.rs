//! Laws on the row that an export query prints and on the credentials made of it.

use vstd::prelude::*;
use crate::credentials::KiroCredentials;
use crate::detect_error::DetectError;
use crate::expiry;
use crate::export;
use crate::export::ExportRow;
use crate::strings;

verus! {

/// A query found a row exactly when it printed something other than whitespace.
pub proof fn law_row_shows_in_the_output(output: &str, r: bool)
    requires
        call_ensures(export::has_row, (output,), r),
    ensures
        r == !strings::is_all_whitespace(output@),
{
    strings::law_blank_means_only_whitespace(output@);
}

/// There is a row unless nothing but line ends was printed.
pub proof fn law_only_line_ends_are_no_row(output: &str, r: Result<ExportRow, DetectError>)
    requires
        call_ensures(export::query_export_row, (output,), r),
    ensures
        r is Ok <==> exists|i: int|
            0 <= i < output@.len() && #[trigger] output@[i] != '\r' && output@[i] != '\n',
        r matches Err(error) ==> error is NoExportRow,
{
    let row = strings::without_line_end(output@);
    strings::law_only_the_line_end_is_cut(output@);
    let cut = output@.skip(row.len() as int);
    if row.len() > 0 {
        assert(output@.take(row.len() as int)[row.len() - 1] == output@[row.len() - 1]);
    } else {
        assert forall|i: int| 0 <= i < output@.len() implies #[trigger] output@[i] == '\r'
            || output@[i] == '\n' by {
            assert(cut[i] == output@[i]);
        }
    }
}

/// A row without a tab is one field, and the others are empty.
pub proof fn law_row_without_tab_is_the_first_field(
    output: &str,
    line: Seq<char>,
    line_end: Seq<char>,
    r: Result<ExportRow, DetectError>,
)
    requires
        call_ensures(export::query_export_row, (output,), r),
        output@ == line + line_end,
        strings::is_line_end(line_end),
        line.len() > 0,
        line.last() != '\r' && line.last() != '\n',
        !line.contains('\t'),
    ensures
        r matches Ok(row) && row.access_token@ == line && row.refresh_token@.len() == 0
            && row.expires_raw@.len() == 0 && row.region@.len() == 0 && row.client_id@.len() == 0
            && row.client_secret@.len() == 0,
{
    strings::law_line_end_does_not_matter(line, line_end);
    strings::law_first_separator_ends_the_first_field(line, '\t', Seq::<char>::empty());
}

/// What stands before the first tab is the first field. The fields behind it are
/// those of the rest, each one place further; a rest of line ends alone has none.
pub proof fn law_first_tab_ends_the_first_field(
    output: &str,
    first: Seq<char>,
    rest: &str,
    r: Result<ExportRow, DetectError>,
    r_rest: Result<ExportRow, DetectError>,
)
    requires
        call_ensures(export::query_export_row, (output,), r),
        call_ensures(export::query_export_row, (rest,), r_rest),
        output@ == first.push('\t') + rest@,
        !first.contains('\t'),
    ensures
        r matches Ok(row) && row.access_token@ == first && (match r_rest {
            Ok(others) => {
                &&& row.refresh_token@ == others.access_token@
                &&& row.expires_raw@ == others.refresh_token@
                &&& row.region@ == others.expires_raw@
                &&& row.client_id@ == others.region@
                &&& row.client_secret@ == others.client_id@
            },
            Err(_) => {
                &&& row.refresh_token@.len() == 0
                &&& row.expires_raw@.len() == 0
                &&& row.region@.len() == 0
                &&& row.client_id@.len() == 0
                &&& row.client_secret@.len() == 0
            },
        }),
{
    let short = strings::without_line_end(rest@);
    strings::law_line_end_lies_behind(first.push('\t'), rest@);
    strings::law_first_separator_ends_the_first_field(first, '\t', short);
    let fields = strings::fields_of(short, '\t');
    let all = seq![first] + fields;
    assert(strings::field_at(all, 0) == first);
    assert(strings::field_at(all, 1) == strings::field_at(fields, 0));
    assert(strings::field_at(all, 2) == strings::field_at(fields, 1));
    assert(strings::field_at(all, 3) == strings::field_at(fields, 2));
    assert(strings::field_at(all, 4) == strings::field_at(fields, 3));
    assert(strings::field_at(all, 5) == strings::field_at(fields, 4));
}

/// Fields with tabs between them and a line end behind them.
pub open spec fn printed(
    access_token: Seq<char>,
    refresh_token: Seq<char>,
    expires: Seq<char>,
    region: Seq<char>,
    client_id: Seq<char>,
    client_secret: Seq<char>,
    line_end: Seq<char>,
) -> Seq<char> {
    access_token + seq!['\t'] + refresh_token + seq!['\t'] + expires + seq!['\t'] + region
        + seq!['\t'] + client_id + seq!['\t'] + client_secret + line_end
}

/// The fields can be told apart in a printed row.
pub open spec fn are_printable(
    access_token: Seq<char>,
    refresh_token: Seq<char>,
    expires: Seq<char>,
    region: Seq<char>,
    client_id: Seq<char>,
    client_secret: Seq<char>,
    line_end: Seq<char>,
) -> bool {
    &&& !access_token.contains('\t')
    &&& !refresh_token.contains('\t')
    &&& !expires.contains('\t')
    &&& !region.contains('\t')
    &&& !client_id.contains('\t')
    &&& !client_secret.contains('\t')
    &&& client_secret.len() > 0 ==> client_secret.last() != '\r' && client_secret.last() != '\n'
    &&& strings::is_line_end(line_end)
}

/// Six printed fields are read in the order in which they were printed.
pub proof fn law_printed_fields_are_read(
    output: &str,
    access_token: Seq<char>,
    refresh_token: Seq<char>,
    expires: Seq<char>,
    region: Seq<char>,
    client_id: Seq<char>,
    client_secret: Seq<char>,
    line_end: Seq<char>,
    r: Result<ExportRow, DetectError>,
)
    requires
        call_ensures(export::query_export_row, (output,), r),
        are_printable(
            access_token,
            refresh_token,
            expires,
            region,
            client_id,
            client_secret,
            line_end,
        ),
        output@ == printed(
            access_token,
            refresh_token,
            expires,
            region,
            client_id,
            client_secret,
            line_end,
        ),
    ensures
        r is Ok,
        r->Ok_0.access_token@ == access_token,
        r->Ok_0.refresh_token@ == refresh_token,
        r->Ok_0.expires_raw@ == expires,
        r->Ok_0.region@ == region,
        r->Ok_0.client_id@ == client_id,
        r->Ok_0.client_secret@ == client_secret,
{
    lemma_printed_row(
        access_token,
        refresh_token,
        expires,
        region,
        client_id,
        client_secret,
        line_end,
    );
}

pub(crate) proof fn lemma_printed_row(
    access_token: Seq<char>,
    refresh_token: Seq<char>,
    expires: Seq<char>,
    region: Seq<char>,
    client_id: Seq<char>,
    client_secret: Seq<char>,
    line_end: Seq<char>,
)
    requires
        are_printable(
            access_token,
            refresh_token,
            expires,
            region,
            client_id,
            client_secret,
            line_end,
        ),
    ensures
        ({
            let read = export::exported_row(
                printed(
                    access_token,
                    refresh_token,
                    expires,
                    region,
                    client_id,
                    client_secret,
                    line_end,
                ),
            );
            &&& read is Ok
            &&& read->Ok_0.access_token == access_token
            &&& read->Ok_0.refresh_token == refresh_token
            &&& read->Ok_0.expires_raw == expires
            &&& read->Ok_0.region == region
            &&& read->Ok_0.client_id == client_id
            &&& read->Ok_0.client_secret == client_secret
        }),
{
    let line = printed(
        access_token,
        refresh_token,
        expires,
        region,
        client_id,
        client_secret,
        Seq::<char>::empty(),
    );
    let output = printed(
        access_token,
        refresh_token,
        expires,
        region,
        client_id,
        client_secret,
        line_end,
    );
    assert(output =~= line + line_end);
    assert(line.len() > 0);
    if client_secret.len() > 0 {
        assert(line.last() == client_secret.last());
    } else {
        assert(line.last() == '\t');
    }
    strings::law_line_end_does_not_matter(line, line_end);
    let rest_5 = client_secret;
    let rest_4 = client_id.push('\t') + rest_5;
    let rest_3 = region.push('\t') + rest_4;
    let rest_2 = expires.push('\t') + rest_3;
    let rest_1 = refresh_token.push('\t') + rest_2;
    assert(line =~= access_token.push('\t') + rest_1);
    strings::law_first_separator_ends_the_first_field(rest_5, '\t', Seq::<char>::empty());
    strings::law_first_separator_ends_the_first_field(client_id, '\t', rest_5);
    strings::law_first_separator_ends_the_first_field(region, '\t', rest_4);
    strings::law_first_separator_ends_the_first_field(expires, '\t', rest_3);
    strings::law_first_separator_ends_the_first_field(refresh_token, '\t', rest_2);
    strings::law_first_separator_ends_the_first_field(access_token, '\t', rest_1);
    assert(strings::fields_of(line, '\t') =~= seq![
        access_token,
        refresh_token,
        expires,
        region,
        client_id,
        client_secret,
    ]);
}

/// The value is what is left of a field without the whitespace around it; it is
/// there exactly when something is left.
pub open spec fn is_kept_value(field: Seq<char>, value: Option<String>) -> bool {
    &&& value is Some <==> !strings::is_all_whitespace(field)
    &&& value is Some ==> value->0@ == strings::trimmed(field)
}

/// A field is kept without the whitespace around it; one of nothing but
/// whitespace is no value.
pub proof fn law_value_is_kept_trimmed(value: String, r: Option<String>)
    requires
        call_ensures(export::non_empty, (value,), r),
    ensures
        is_kept_value(value@, r),
{
    strings::law_blank_means_only_whitespace(value@);
}

/// Credentials hold the fields of a login, each in its place: the refresh token
/// as it is, the access token, client id, client secret and region without the
/// whitespace around them, whatever the login method. One region serves all
/// three purposes. They hold nothing else.
pub open spec fn holds_fields(
    found: KiroCredentials,
    auth_method: Seq<char>,
    access_token: Seq<char>,
    refresh_token: Seq<char>,
    region: Seq<char>,
    client_id: Seq<char>,
    client_secret: Seq<char>,
) -> bool {
    &&& is_kept_value(access_token, found.access_token)
    &&& found.refresh_token matches Some(token) && token@ == refresh_token
    &&& found.auth_method matches Some(method) && method@ == auth_method
    &&& is_kept_value(client_id, found.client_id)
    &&& is_kept_value(client_secret, found.client_secret)
    &&& is_kept_value(region, found.region)
    &&& is_kept_value(region, found.auth_region)
    &&& is_kept_value(region, found.api_region)
    &&& found.id is None
    &&& found.priority == 0
    &&& found.endpoint is None
    &&& found.kiro_api_key is None
    &&& found.extra is None
}

/// Both are there and read the same, or neither is there.
pub open spec fn is_same_text(left: Option<String>, right: Option<String>) -> bool {
    &&& left is Some <==> right is Some
    &&& left is Some ==> left->0@ == right->0@
}

/// Credentials are made of every row that has a refresh token and, for IdC, a
/// client id and a client secret; of no other. The error says which is missing,
/// the refresh token first.
pub open spec fn is_login_owed(
    auth_method: Seq<char>,
    refresh_token: Seq<char>,
    client_id: Seq<char>,
    client_secret: Seq<char>,
    error: Option<DetectError>,
) -> bool {
    let lacks_token = strings::is_all_whitespace(refresh_token);
    let lacks_client = strings::is_all_whitespace(client_id) || strings::is_all_whitespace(
        client_secret,
    );
    match error {
        None => !lacks_token && (auth_method == "idc"@ ==> !lacks_client),
        Some(error) => {
            &&& lacks_token ==> error is MissingRefreshToken
            &&& !lacks_token ==> error is MissingClient && auth_method == "idc"@ && lacks_client
        },
    }
}

/// Credentials made of a row hold its fields and the expiry found for it.
pub proof fn law_assembled_credentials_hold_the_row(
    auth_method: &str,
    row: ExportRow,
    expires_at: Option<String>,
    r: Result<KiroCredentials, DetectError>,
)
    requires
        call_ensures(export::assemble_credentials, (auth_method, row, expires_at), r),
    ensures
        r matches Ok(found) ==> holds_fields(
            found,
            auth_method@,
            row.access_token@,
            row.refresh_token@,
            row.region@,
            row.client_id@,
            row.client_secret@,
        ) && is_same_text(found.expires_at, expires_at),
        is_login_owed(
            auth_method@,
            row.refresh_token@,
            row.client_id@,
            row.client_secret@,
            match r {
                Ok(_) => None,
                Err(error) => Some(error),
            },
        ),
{
    strings::law_blank_means_only_whitespace(row.access_token@);
    strings::law_blank_means_only_whitespace(row.refresh_token@);
    strings::law_blank_means_only_whitespace(row.region@);
    strings::law_blank_means_only_whitespace(row.client_id@);
    strings::law_blank_means_only_whitespace(row.client_secret@);
}

/// Credentials made of a row hold its fields and the expiry that its field of
/// that name stands for.
pub proof fn law_built_credentials_hold_the_row(
    auth_method: &str,
    row: ExportRow,
    r: Result<KiroCredentials, DetectError>,
    raw: &str,
    expires_at: Option<String>,
)
    requires
        call_ensures(export::build_credentials, (auth_method, row), r),
        raw@ == row.expires_raw@,
        call_ensures(expiry::normalize_expires_at, (raw,), expires_at),
    ensures
        r matches Ok(found) ==> holds_fields(
            found,
            auth_method@,
            row.access_token@,
            row.refresh_token@,
            row.region@,
            row.client_id@,
            row.client_secret@,
        ) && is_same_text(found.expires_at, expires_at),
        is_login_owed(
            auth_method@,
            row.refresh_token@,
            row.client_id@,
            row.client_secret@,
            match r {
                Ok(_) => None,
                Err(error) => Some(error),
            },
        ),
{
    strings::law_blank_means_only_whitespace(row.access_token@);
    strings::law_blank_means_only_whitespace(row.refresh_token@);
    strings::law_blank_means_only_whitespace(row.region@);
    strings::law_blank_means_only_whitespace(row.client_id@);
    strings::law_blank_means_only_whitespace(row.client_secret@);
}

} // verus!
