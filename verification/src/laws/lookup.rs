//! Laws on asking the database.

use std::path::PathBuf;
use vstd::prelude::*;
use crate::cli_credentials;
use crate::cli_credentials::{
    Detection, Environment, FileCheck, LoadState, LoadStep, OpenQuery,
};
use crate::credentials::KiroCredentials;
use crate::detect_error::DetectError;
use crate::expiry;
use crate::export;
use crate::export::ExportRow;
use crate::laws::exports;
use crate::paths;
use crate::queries;
use crate::queries::{Query, SqliteArg};
use crate::sqlite::Reply;
use crate::strings;

verus! {

/// An argument that is this text.
pub open spec fn is_text(argument: SqliteArg<'_>, text: Seq<char>) -> bool {
    argument matches SqliteArg::Text(given) && given@ == text
}

/// `sqlite3` is asked for tab-separated rows without a header from the given
/// database, by four arguments, and the last of them is the SQL of the query
/// itself: for each query its own.
pub proof fn law_arguments_ask_the_query(
    db_path: &PathBuf,
    query: Query,
    r: Vec<SqliteArg<'_>>,
)
    requires
        call_ensures(queries::sqlite_arguments, (db_path, query), r),
    ensures
        r@.len() == 4,
        is_text(r@[0], "-tabs"@),
        is_text(r@[1], "-noheader"@),
        r@[2] matches SqliteArg::Path(path) && *path == *db_path,
        query == Query::IdcToken ==> is_text(r@[3], queries::IDC_TOKEN_QUERY@),
        query == Query::IdcDevice ==> is_text(r@[3], queries::IDC_DEVICE_QUERY@),
        query == Query::SocialToken ==> is_text(r@[3], queries::SOCIAL_TOKEN_QUERY@),
        query == Query::IdcExport ==> is_text(r@[3], queries::IDC_EXPORT_QUERY@),
        query == Query::SocialExport ==> is_text(r@[3], queries::SOCIAL_EXPORT_QUERY@),
{
    let views = queries::argument_views(r@);
    assert(views.len() == 4);
    assert(views[0] == r@[0]@ && views[1] == r@[1]@ && views[2] == r@[2]@ && views[3] == r@[3]@);
}

/// The five queries differ in their SQL.
proof fn lemma_queries_differ(a: Query, b: Query)
    requires
        a != b,
    ensures
        a.text() != b.text(),
{
    reveal_strlit("SELECT 1 FROM auth_kv WHERE key IN ('kirocli:odic:token', 'kirocli:oidc:token') LIMIT 1;");
    reveal_strlit("SELECT 1 FROM auth_kv WHERE key IN ('kirocli:odic:device-registration', 'kirocli:oidc:device-registration') LIMIT 1;");
    reveal_strlit("SELECT 1 FROM auth_kv WHERE key = 'kirocli:social:token' LIMIT 1;");
    reveal_strlit(r#"
WITH token_row AS (
  SELECT value
  FROM auth_kv
  WHERE key IN ('kirocli:odic:token', 'kirocli:oidc:token')
  ORDER BY CASE key
    WHEN 'kirocli:odic:token' THEN 0
    ELSE 1
  END
  LIMIT 1
),
device_row AS (
  SELECT value
  FROM auth_kv
  WHERE key IN ('kirocli:odic:device-registration', 'kirocli:oidc:device-registration')
  ORDER BY CASE key
    WHEN 'kirocli:odic:device-registration' THEN 0
    ELSE 1
  END
  LIMIT 1
)
SELECT
  COALESCE(json_extract(t.value, '$.access_token'), json_extract(t.value, '$.accessToken'), json_extract(t.value, '$.poll_response.accessToken'), ''),
  COALESCE(json_extract(t.value, '$.refresh_token'), json_extract(t.value, '$.refreshToken'), json_extract(t.value, '$.poll_response.refreshToken'), ''),
  COALESCE(json_extract(t.value, '$.expires_at'), json_extract(t.value, '$.expiresAt'), ''),
  COALESCE(json_extract(t.value, '$.region'), json_extract(d.value, '$.region'), ''),
  COALESCE(json_extract(d.value, '$.client_id'), json_extract(d.value, '$.clientId'), json_extract(t.value, '$.client_id'), json_extract(t.value, '$.clientId'), ''),
  COALESCE(json_extract(d.value, '$.client_secret'), json_extract(d.value, '$.clientSecret'), json_extract(t.value, '$.client_secret'), json_extract(t.value, '$.clientSecret'), '')
FROM token_row t
CROSS JOIN device_row d;
"#);
    reveal_strlit(r#"
SELECT
  COALESCE(json_extract(value, '$.access_token'), json_extract(value, '$.accessToken'), json_extract(value, '$.poll_response.accessToken'), ''),
  COALESCE(json_extract(value, '$.refresh_token'), json_extract(value, '$.refreshToken'), json_extract(value, '$.poll_response.refreshToken'), ''),
  COALESCE(json_extract(value, '$.expires_at'), json_extract(value, '$.expiresAt'), ''),
  COALESCE(json_extract(value, '$.region'), ''),
  '',
  ''
FROM auth_kv
WHERE key = 'kirocli:social:token'
LIMIT 1;
"#);
    assert(queries::IDC_TOKEN_QUERY@.len() == 88);
    assert(queries::IDC_DEVICE_QUERY@.len() == 116);
    assert(queries::SOCIAL_TOKEN_QUERY@.len() == 65);
    assert(queries::IDC_EXPORT_QUERY@.len() == 1312);
    assert(queries::SOCIAL_EXPORT_QUERY@.len() == 507);
}

/// The database is read by `sqlite3`, and the variable that names it is
/// `KIRO_CLI_DB`.
pub proof fn law_names_of_program_and_variable()
    ensures
        queries::SQLITE_PROGRAM@ == "sqlite3"@,
        cli_credentials::KIRO_CLI_DB_ENV@ == "KIRO_CLI_DB"@,
{
}

/// The SQL of each query is its own.
pub proof fn law_each_query_has_its_sql(query: Query, r: &'static str)
    requires
        call_ensures(Query::sql, (&query,), r),
    ensures
        query == Query::IdcToken ==> r@ == queries::IDC_TOKEN_QUERY@,
        query == Query::IdcDevice ==> r@ == queries::IDC_DEVICE_QUERY@,
        query == Query::SocialToken ==> r@ == queries::SOCIAL_TOKEN_QUERY@,
        query == Query::IdcExport ==> r@ == queries::IDC_EXPORT_QUERY@,
        query == Query::SocialExport ==> r@ == queries::SOCIAL_EXPORT_QUERY@,
{
}

/// `sqlite3` is asked differently for different queries: the last arguments are
/// two different texts.
pub proof fn law_different_queries_are_asked_differently(
    db_path: &PathBuf,
    other_path: &PathBuf,
    query: Query,
    other: Query,
    r: Vec<SqliteArg<'_>>,
    r_other: Vec<SqliteArg<'_>>,
)
    requires
        query != other,
        call_ensures(queries::sqlite_arguments, (db_path, query), r),
        call_ensures(queries::sqlite_arguments, (other_path, other), r_other),
    ensures
        r@.last() is Text,
        r_other@.last() is Text,
        r@.last()->Text_0@ != r_other@.last()->Text_0@,
{
    law_arguments_ask_the_query(db_path, query, r);
    law_arguments_ask_the_query(other_path, other, r_other);
    lemma_queries_differ(query, other);
}

/// A lookup asks its own database for what is open: first for an IdC token, then
/// for an IdC device registration, then for a social token, then for the fields
/// of the one or the other login.
pub proof fn law_lookup_asks_what_is_open(open: OpenQuery, r: Vec<SqliteArg<'_>>)
    requires
        call_ensures(OpenQuery::arguments, (&open,), r),
    ensures
        r@.len() == 4,
        is_text(r@[0], "-tabs"@),
        is_text(r@[1], "-noheader"@),
        r@[2] matches SqliteArg::Path(path) && *path == open.db_path,
        open.state is IdcToken ==> is_text(r@[3], queries::IDC_TOKEN_QUERY@),
        open.state is IdcDevice ==> is_text(r@[3], queries::IDC_DEVICE_QUERY@),
        open.state is SocialToken ==> is_text(r@[3], queries::SOCIAL_TOKEN_QUERY@),
        open.state is IdcExport ==> is_text(r@[3], queries::IDC_EXPORT_QUERY@),
        open.state is SocialExport ==> is_text(r@[3], queries::SOCIAL_EXPORT_QUERY@),
{
    let views = queries::argument_views(r@);
    assert(views.len() == 4);
    assert(views[0] == r@[0]@ && views[1] == r@[1]@ && views[2] == r@[2]@ && views[3] == r@[3]@);
}

/// The query that is open is the one that the state is named after.
pub proof fn law_state_names_its_query(state: LoadState, r: Query)
    requires
        call_ensures(LoadState::query, (&state,), r),
    ensures
        state is IdcToken <==> r == Query::IdcToken,
        state is IdcDevice <==> r == Query::IdcDevice,
        state is SocialToken <==> r == Query::SocialToken,
        state is IdcExport <==> r == Query::IdcExport,
        state is SocialExport <==> r == Query::SocialExport,
{
}

/// The same failure, with the same texts.
pub open spec fn is_same_error(left: DetectError, right: DetectError) -> bool {
    match (left, right) {
        (DetectError::SqliteNotRun { cause: l }, DetectError::SqliteNotRun { cause: r }) => l@
            == r@,
        (DetectError::SqliteFailed { stderr: l }, DetectError::SqliteFailed { stderr: r }) => l@
            == r@,
        (DetectError::NonUtf8Output { cause: l }, DetectError::NonUtf8Output { cause: r }) => l@
            == r@,
        (DetectError::IncompleteIdcRows, DetectError::IncompleteIdcRows) => true,
        (DetectError::NoExportRow, DetectError::NoExportRow) => true,
        (DetectError::MissingRefreshToken, DetectError::MissingRefreshToken) => true,
        (DetectError::MissingClient, DetectError::MissingClient) => true,
        _ => false,
    }
}

/// A failed query ends the lookup with its failure, whatever was open.
pub proof fn law_failed_query_ends_the_lookup(
    open: OpenQuery,
    state: LoadState,
    error: DetectError,
    r: Detection,
    step: LoadStep,
)
    requires
        call_ensures(OpenQuery::answered, (open, Err::<String, DetectError>(error)), r),
        call_ensures(LoadState::answered, (state, Err::<String, DetectError>(error)), step),
    ensures
        r matches Detection::Failed(failure) && failure.db_path == open.db_path && is_same_error(
            failure.error,
            error,
        ),
        step matches LoadStep::Failed(told) && is_same_error(told, error),
{
}

/// A lookup begins by asking for an IdC token.
pub proof fn law_lookup_begins_with_the_idc_token(r: LoadState)
    requires
        call_ensures(cli_credentials::load_from_db, (), r),
    ensures
        r is IdcToken,
{
}

/// The next question of a lookup is asked of the same database.
pub open spec fn asks_next(open: OpenQuery, state: LoadState, r: Detection) -> bool {
    r matches Detection::RunQuery(next) && next.db_path == open.db_path && next.state == state
}

/// The three kinds of rows are looked for one after the other, and it is
/// remembered of the first two whether they are there: whether something other
/// than whitespace was printed.
pub proof fn law_rows_are_looked_for_in_order(open: OpenQuery, output: String, r: Detection)
    requires
        call_ensures(OpenQuery::answered, (open, Ok::<String, DetectError>(output)), r),
    ensures
        open.state is IdcToken ==> asks_next(
            open,
            LoadState::IdcDevice { idc_token: !strings::is_all_whitespace(output@) },
            r,
        ),
        open.state matches LoadState::IdcDevice { idc_token } ==> asks_next(
            open,
            LoadState::SocialToken { idc_token, idc_device: !strings::is_all_whitespace(output@) },
            r,
        ),
{
    strings::law_blank_means_only_whitespace(output@);
}

/// Once all three kinds of rows were looked for: a complete IdC login is
/// exported, else a social one, else half an IdC login is an error, else nothing
/// was found.
pub proof fn law_login_is_chosen(
    open: OpenQuery,
    idc_token: bool,
    idc_device: bool,
    output: String,
    r: Detection,
)
    requires
        call_ensures(OpenQuery::answered, (open, Ok::<String, DetectError>(output)), r),
        open.state == (LoadState::SocialToken { idc_token, idc_device }),
    ensures
        ({
            let is_social = !strings::is_all_whitespace(output@);
            &&& idc_token && idc_device ==> asks_next(open, LoadState::IdcExport, r)
            &&& !(idc_token && idc_device) && is_social ==> asks_next(
                open,
                LoadState::SocialExport,
                r,
            )
            &&& idc_token != idc_device && !is_social ==> (r matches Detection::Failed(
                failure,
            ) && failure.db_path == open.db_path && failure.error is IncompleteIdcRows)
            &&& !idc_token && !idc_device && !is_social ==> r == Detection::Finished(None)
        }),
{
    strings::law_blank_means_only_whitespace(output@);
}

/// The lookup in a database and the lookup that knows where the database lies go
/// alike.
pub proof fn law_lookup_follows_its_database(
    open: OpenQuery,
    reply: Reply,
    r: Detection,
    step: LoadStep,
)
    requires
        call_ensures(OpenQuery::answered, (open, reply), r),
        call_ensures(LoadState::answered, (open.state, reply), step),
    ensures
        match step {
            LoadStep::Ask(state) => asks_next(open, state, r),
            LoadStep::Loaded(None) => r == Detection::Finished(None),
            LoadStep::Loaded(Some(loaded)) => r matches Detection::Finished(Some(found))
                && found.db_path == open.db_path && is_same_login_data(found.credentials, loaded),
            LoadStep::Failed(error) => r matches Detection::Failed(failure) && failure.db_path
                == open.db_path && is_same_error(failure.error, error),
        },
{
}

/// Credentials that agree in every field.
pub open spec fn is_same_login_data(left: KiroCredentials, right: KiroCredentials) -> bool {
    &&& left.id == right.id
    &&& exports::is_same_text(left.access_token, right.access_token)
    &&& exports::is_same_text(left.refresh_token, right.refresh_token)
    &&& exports::is_same_text(left.expires_at, right.expires_at)
    &&& exports::is_same_text(left.auth_method, right.auth_method)
    &&& exports::is_same_text(left.client_id, right.client_id)
    &&& exports::is_same_text(left.client_secret, right.client_secret)
    &&& left.priority == right.priority
    &&& exports::is_same_text(left.region, right.region)
    &&& exports::is_same_text(left.auth_region, right.auth_region)
    &&& exports::is_same_text(left.api_region, right.api_region)
    &&& exports::is_same_text(left.endpoint, right.endpoint)
    &&& exports::is_same_text(left.kiro_api_key, right.kiro_api_key)
    &&& exports::is_same_text(left.extra, right.extra)
}

/// The login method whose export is open.
pub open spec fn exports_as(open: OpenQuery, auth_method: Seq<char>) -> bool {
    ||| open.state is IdcExport && auth_method == "idc"@
    ||| open.state is SocialExport && auth_method == "social"@
}

/// The answer to an export query ends the lookup with what reading the row and
/// making credentials of it give.
pub proof fn law_export_ends_the_lookup(
    open: OpenQuery,
    output: String,
    r: Detection,
    text: &str,
    row: Result<ExportRow, DetectError>,
    auth_method: &str,
    built: Result<KiroCredentials, DetectError>,
)
    requires
        call_ensures(OpenQuery::answered, (open, Ok::<String, DetectError>(output)), r),
        exports_as(open, auth_method@),
        text@ == output@,
        call_ensures(export::query_export_row, (text,), row),
        row matches Ok(read) ==> call_ensures(
            export::build_credentials,
            (auth_method, read),
            built,
        ),
    ensures
        match (row, built) {
            (Err(error), _) => r matches Detection::Failed(failure) && failure.db_path
                == open.db_path && is_same_error(failure.error, error),
            (Ok(_), Err(error)) => r matches Detection::Failed(failure) && failure.db_path
                == open.db_path && is_same_error(failure.error, error),
            (Ok(_), Ok(login)) => r matches Detection::Finished(Some(found)) && found.db_path
                == open.db_path && is_same_login_data(found.credentials, login),
        },
{
}

/// Whatever the export query of either login prints: if its first field is not
/// blank and the lookup finds credentials, their access token is that field
/// without the whitespace around it.
pub proof fn law_found_access_token_is_the_first_field(
    open: OpenQuery,
    output: String,
    first: Seq<char>,
    rest: Seq<char>,
    r: Detection,
)
    requires
        call_ensures(OpenQuery::answered, (open, Ok::<String, DetectError>(output)), r),
        open.state is IdcExport || open.state is SocialExport,
        !first.contains('\t'),
        output@ == first.push('\t') + rest,
        !strings::is_all_whitespace(first),
    ensures
        r matches Detection::Finished(found) ==> found matches Some(found)
            && found.credentials.access_token matches Some(token) && token@ == strings::trimmed(
            first,
        ),
{
    strings::law_line_end_lies_behind(first.push('\t'), rest);
    strings::law_first_separator_ends_the_first_field(
        first,
        '\t',
        strings::without_line_end(rest),
    );
    strings::law_blank_means_only_whitespace(first);
    let row = strings::without_line_end(output@);
    assert(strings::fields_of(row, '\t')[0] == first);
}

/// A row without a tab holds no refresh token: the lookup that exports it fails.
pub proof fn law_row_without_tab_is_no_login(open: OpenQuery, output: String, r: Detection)
    requires
        call_ensures(OpenQuery::answered, (open, Ok::<String, DetectError>(output)), r),
        open.state is IdcExport || open.state is SocialExport,
        !output@.contains('\t'),
    ensures
        r matches Detection::Failed(failure) && failure.db_path == open.db_path && (
        failure.error is NoExportRow || failure.error is MissingRefreshToken),
{
    let row = strings::without_line_end(output@);
    strings::law_only_the_line_end_is_cut(output@);
    assert forall|i: int| 0 <= i < row.len() implies #[trigger] row[i] != '\t' by {
        assert(output@.take(row.len() as int)[i] == output@[i]);
    }
    strings::law_first_separator_ends_the_first_field(row, '\t', Seq::<char>::empty());
    strings::law_blank_means_only_whitespace(Seq::<char>::empty());
}

/// The six fields that an export query prints end up in the credentials that the
/// lookup finds, each in its place, or the lookup fails for want of one.
pub proof fn law_printed_login_is_found(
    open: OpenQuery,
    output: String,
    auth_method: Seq<char>,
    access_token: Seq<char>,
    refresh_token: Seq<char>,
    expires: &str,
    region: Seq<char>,
    client_id: Seq<char>,
    client_secret: Seq<char>,
    line_end: Seq<char>,
    expires_at: Option<String>,
    r: Detection,
)
    requires
        call_ensures(OpenQuery::answered, (open, Ok::<String, DetectError>(output)), r),
        exports_as(open, auth_method),
        exports::are_printable(
            access_token,
            refresh_token,
            expires@,
            region,
            client_id,
            client_secret,
            line_end,
        ),
        output@ == exports::printed(
            access_token,
            refresh_token,
            expires@,
            region,
            client_id,
            client_secret,
            line_end,
        ),
        call_ensures(expiry::normalize_expires_at, (expires,), expires_at),
    ensures
        match r {
            Detection::Finished(found) => {
                &&& found is Some
                &&& found->0.db_path == open.db_path
                &&& exports::holds_fields(
                    found->0.credentials,
                    auth_method,
                    access_token,
                    refresh_token,
                    region,
                    client_id,
                    client_secret,
                )
                &&& exports::is_same_text(found->0.credentials.expires_at, expires_at)
                &&& exports::is_login_owed(
                    auth_method,
                    refresh_token,
                    client_id,
                    client_secret,
                    None,
                )
            },
            Detection::Failed(failure) => {
                &&& failure.db_path == open.db_path
                &&& exports::is_login_owed(
                    auth_method,
                    refresh_token,
                    client_id,
                    client_secret,
                    Some(failure.error),
                )
            },
            _ => false,
        },
{
    exports::lemma_printed_row(
        access_token,
        refresh_token,
        expires@,
        region,
        client_id,
        client_secret,
        line_end,
    );
    strings::law_blank_means_only_whitespace(access_token);
    strings::law_blank_means_only_whitespace(refresh_token);
    strings::law_blank_means_only_whitespace(region);
    strings::law_blank_means_only_whitespace(client_id);
    strings::law_blank_means_only_whitespace(client_secret);
}

/// Where there is a file, the lookup goes on to ask it for an IdC token; where
/// there is none, nothing is found.
pub proof fn law_lookup_needs_a_file(check: FileCheck, is_file: bool, r: Detection)
    requires
        call_ensures(FileCheck::checked, (check, is_file), r),
    ensures
        is_file ==> (r matches Detection::RunQuery(open) && open.db_path == check.db_path
            && open.state is IdcToken),
        !is_file ==> r == Detection::Finished(None),
{
}

/// From the file to the login: a database in which an IdC token and a device
/// registration are found gives the fields that its IdC export prints, as an IdC
/// login; another one in which a social token is found gives those that its
/// social export prints, as a social login.
pub proof fn law_lookup_finds_what_the_database_exports(
    check: FileCheck,
    token: String,
    device: String,
    social: String,
    output: String,
    first: Seq<char>,
    rest: Seq<char>,
    steps: (Detection, Detection, Detection, Detection),
    r: Detection,
)
    requires
        call_ensures(FileCheck::checked, (check, true), steps.0),
        steps.0 is RunQuery ==> call_ensures(
            OpenQuery::answered,
            (steps.0->RunQuery_0, Ok::<String, DetectError>(token)),
            steps.1,
        ),
        steps.1 is RunQuery ==> call_ensures(
            OpenQuery::answered,
            (steps.1->RunQuery_0, Ok::<String, DetectError>(device)),
            steps.2,
        ),
        steps.2 is RunQuery ==> call_ensures(
            OpenQuery::answered,
            (steps.2->RunQuery_0, Ok::<String, DetectError>(social)),
            steps.3,
        ),
        steps.3 is RunQuery ==> call_ensures(
            OpenQuery::answered,
            (steps.3->RunQuery_0, Ok::<String, DetectError>(output)),
            r,
        ),
        !strings::is_all_whitespace(social@) || (!strings::is_all_whitespace(token@)
            && !strings::is_all_whitespace(device@)),
        !first.contains('\t'),
        output@ == first.push('\t') + rest,
    ensures
        ({
            let is_idc = !strings::is_all_whitespace(token@) && !strings::is_all_whitespace(
                device@,
            );
            &&& steps.3 is RunQuery
            &&& is_idc ==> steps.3->RunQuery_0.state is IdcExport
            &&& !is_idc ==> steps.3->RunQuery_0.state is SocialExport
            &&& r is Finished || r is Failed
            &&& r matches Detection::Finished(found) ==> {
                &&& found is Some
                &&& found->0.db_path == check.db_path
                &&& exports::is_kept_value(first, found->0.credentials.access_token)
                &&& found->0.credentials.auth_method matches Some(method) && method@ == (
                if is_idc {
                    "idc"@
                } else {
                    "social"@
                })
            }
            &&& r matches Detection::Failed(failure) ==> failure.db_path == check.db_path
        }),
{
    strings::law_blank_means_only_whitespace(token@);
    strings::law_blank_means_only_whitespace(device@);
    strings::law_blank_means_only_whitespace(social@);
    strings::law_line_end_lies_behind(first.push('\t'), rest);
    strings::law_first_separator_ends_the_first_field(
        first,
        '\t',
        strings::without_line_end(rest),
    );
    strings::law_blank_means_only_whitespace(first);
    let row = strings::without_line_end(output@);
    assert(strings::fields_of(row, '\t')[0] == first);
}

/// A lookup goes to the path that was asked for, whatever the environment says;
/// else to the one in `KIRO_CLI_DB`; else below `HOME`; else below
/// `USERPROFILE`; else nowhere.
pub proof fn law_place_of_the_database(
    db_override: Option<PathBuf>,
    env: Environment,
    r: Option<PathBuf>,
)
    requires
        call_ensures(cli_credentials::default_db_path, (db_override, env), r),
    ensures
        is_place(db_override, env, r),
{
}

/// The place that a lookup goes to.
pub open spec fn is_place(
    db_override: Option<PathBuf>,
    env: Environment,
    r: Option<PathBuf>,
) -> bool {
    let default = ".local/share/kiro-cli/data.sqlite3"@;
    &&& db_override is Some ==> r == db_override
    &&& db_override is None && env.kiro_cli_db is Some ==> r == env.kiro_cli_db
    &&& db_override is None && env.kiro_cli_db is None ==> {
        &&& env.home matches Some(home) ==> r matches Some(path) && paths::is_join(
            home,
            default,
            path,
        )
        &&& env.home is None ==> (env.user_profile matches Some(home) ==> r matches Some(path)
            && paths::is_join(home, default, path))
        &&& env.home is None && env.user_profile is None ==> r is None
    }
}

/// A lookup begins by looking for a file at its place, or ends at once with
/// nothing where it has none.
pub proof fn law_lookup_begins_at_its_place(
    db_override: Option<PathBuf>,
    env: Environment,
    r: Detection,
)
    requires
        call_ensures(
            cli_credentials::detect_local_credentials_from,
            (db_override, env),
            r,
        ) || (db_override is None && call_ensures(
            cli_credentials::detect_local_credentials,
            (env,),
            r,
        )),
    ensures
        match r {
            Detection::CheckFile(check) => is_place(db_override, env, Some(check.db_path)),
            Detection::Finished(found) => found is None && is_place(db_override, env, None),
            _ => false,
        },
{
    let path = choose|path: Option<PathBuf>| #[trigger]
        cli_credentials::is_db_path(db_override, env, path) && r@
            == cli_credentials::detection_start(path);
    assert(cli_credentials::is_db_path(db_override, env, path));
}

} // verus!
