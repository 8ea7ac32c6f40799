//! The queries that a lookup asks the Kiro CLI database.

use std::path::PathBuf;
use vstd::prelude::*;

verus! {

/// The program that answers the queries.
pub const SQLITE_PROGRAM: &'static str = "sqlite3";

/// Has [`SQLITE_PROGRAM`] print tabs between the columns of a row.
pub const SQLITE_TABS_FLAG: &'static str = "-tabs";

/// Has [`SQLITE_PROGRAM`] print no line with the names of the columns.
pub const SQLITE_NO_HEADER_FLAG: &'static str = "-noheader";

pub const IDC_TOKEN_QUERY: &'static str =
    "SELECT 1 FROM auth_kv WHERE key IN ('kirocli:odic:token', 'kirocli:oidc:token') LIMIT 1;";

pub const IDC_DEVICE_QUERY: &'static str =
    "SELECT 1 FROM auth_kv WHERE key IN ('kirocli:odic:device-registration', 'kirocli:oidc:device-registration') LIMIT 1;";

pub const SOCIAL_TOKEN_QUERY: &'static str =
    "SELECT 1 FROM auth_kv WHERE key = 'kirocli:social:token' LIMIT 1;";

pub const IDC_EXPORT_QUERY: &'static str = r#"
WITH token_row AS (
  SELECT value
  FROM auth_kv
  WHERE key IN ('kirocli:odic:token', 'kirocli:oidc:token')
  ORDER BY CASE key
    WHEN 'kirocli:odic:token' THEN 0
    ELSE 1
  END
  LIMIT 1
),
device_row AS (
  SELECT value
  FROM auth_kv
  WHERE key IN ('kirocli:odic:device-registration', 'kirocli:oidc:device-registration')
  ORDER BY CASE key
    WHEN 'kirocli:odic:device-registration' THEN 0
    ELSE 1
  END
  LIMIT 1
)
SELECT
  COALESCE(json_extract(t.value, '$.access_token'), json_extract(t.value, '$.accessToken'), json_extract(t.value, '$.poll_response.accessToken'), ''),
  COALESCE(json_extract(t.value, '$.refresh_token'), json_extract(t.value, '$.refreshToken'), json_extract(t.value, '$.poll_response.refreshToken'), ''),
  COALESCE(json_extract(t.value, '$.expires_at'), json_extract(t.value, '$.expiresAt'), ''),
  COALESCE(json_extract(t.value, '$.region'), json_extract(d.value, '$.region'), ''),
  COALESCE(json_extract(d.value, '$.client_id'), json_extract(d.value, '$.clientId'), json_extract(t.value, '$.client_id'), json_extract(t.value, '$.clientId'), ''),
  COALESCE(json_extract(d.value, '$.client_secret'), json_extract(d.value, '$.clientSecret'), json_extract(t.value, '$.client_secret'), json_extract(t.value, '$.clientSecret'), '')
FROM token_row t
CROSS JOIN device_row d;
"#;

pub const SOCIAL_EXPORT_QUERY: &'static str = r#"
SELECT
  COALESCE(json_extract(value, '$.access_token'), json_extract(value, '$.accessToken'), json_extract(value, '$.poll_response.accessToken'), ''),
  COALESCE(json_extract(value, '$.refresh_token'), json_extract(value, '$.refreshToken'), json_extract(value, '$.poll_response.refreshToken'), ''),
  COALESCE(json_extract(value, '$.expires_at'), json_extract(value, '$.expiresAt'), ''),
  COALESCE(json_extract(value, '$.region'), ''),
  '',
  ''
FROM auth_kv
WHERE key = 'kirocli:social:token'
LIMIT 1;
"#;

/// The questions that a lookup asks the database.
#[derive(Clone, Copy, Debug, PartialEq, Eq, Structural)]
pub enum Query {
    /// Is there a token of an IdC login?
    IdcToken,
    /// Is there a device registration of an IdC login?
    IdcDevice,
    /// Is there a token of a social login?
    SocialToken,
    /// The fields of the IdC login.
    IdcExport,
    /// The fields of the social login.
    SocialExport,
}

impl Query {
    /// The SQL text.
    pub open spec fn text(self) -> Seq<char> {
        match self {
            Query::IdcToken => IDC_TOKEN_QUERY@,
            Query::IdcDevice => IDC_DEVICE_QUERY@,
            Query::SocialToken => SOCIAL_TOKEN_QUERY@,
            Query::IdcExport => IDC_EXPORT_QUERY@,
            Query::SocialExport => SOCIAL_EXPORT_QUERY@,
        }
    }

    /// The SQL text.
    pub fn sql(&self) -> (r: &'static str)
        ensures
            r@ == self.text(),
    {
        match self {
            Query::IdcToken => IDC_TOKEN_QUERY,
            Query::IdcDevice => IDC_DEVICE_QUERY,
            Query::SocialToken => SOCIAL_TOKEN_QUERY,
            Query::IdcExport => IDC_EXPORT_QUERY,
            Query::SocialExport => SOCIAL_EXPORT_QUERY,
        }
    }
}

/// One argument of [`SQLITE_PROGRAM`].
#[derive(Debug)]
pub enum SqliteArg<'a> {
    Text(&'static str),
    Path(&'a PathBuf),
}

/// An argument over texts.
pub enum SqliteArgView {
    Text(Seq<char>),
    Path(PathBuf),
}

impl<'a> View for SqliteArg<'a> {
    type V = SqliteArgView;

    open spec fn view(&self) -> SqliteArgView {
        match self {
            SqliteArg::Text(text) => SqliteArgView::Text(text@),
            SqliteArg::Path(path) => SqliteArgView::Path(**path),
        }
    }
}

/// Arguments over texts.
pub open spec fn argument_views(arguments: Seq<SqliteArg<'_>>) -> Seq<SqliteArgView> {
    Seq::new(arguments.len(), |i: int| arguments[i]@)
}

/// The arguments that have [`SQLITE_PROGRAM`] answer a query on the database at
/// `db_path`: rows with tabs and without a header, the database, the SQL.
pub open spec fn arguments_for(db_path: PathBuf, query: Query) -> Seq<SqliteArgView> {
    seq![
        SqliteArgView::Text(SQLITE_TABS_FLAG@),
        SqliteArgView::Text(SQLITE_NO_HEADER_FLAG@),
        SqliteArgView::Path(db_path),
        SqliteArgView::Text(query.text()),
    ]
}

/// The arguments that have [`SQLITE_PROGRAM`] answer a query on the database at
/// `db_path`.
pub fn sqlite_arguments<'a>(db_path: &'a PathBuf, query: Query) -> (r: Vec<SqliteArg<'a>>)
    ensures
        argument_views(r@) == arguments_for(*db_path, query),
{
    let r = vec![
        SqliteArg::Text(SQLITE_TABS_FLAG),
        SqliteArg::Text(SQLITE_NO_HEADER_FLAG),
        SqliteArg::Path(db_path),
        SqliteArg::Text(query.sql()),
    ];
    proof {
        assert(argument_views(r@) =~= arguments_for(*db_path, query));
    }
    r
}

} // verus!
