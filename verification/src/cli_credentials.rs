//! Local Kiro CLI credential discovery.
//!
//! A lookup is a sequence of questions about the outside world, each asked after
//! the answer to the one before: is the database file there, and what does
//! `sqlite3` print for a query. [`detect_local_credentials_from`] gives the first
//! one; answering it gives the next one, or the result.

use std::path::PathBuf;
use vstd::prelude::*;
use crate::credentials::{CredentialsView, KiroCredentials};
use crate::detect_error::{DetectError, DetectErrorView, DetectFailure};
use crate::export;
use crate::paths;
use crate::queries;
use crate::queries::{Query, SqliteArg};
use crate::sqlite;
use crate::sqlite::{Reply, ReplyView};
use crate::strings;

verus! {

/// The environment variable that names the database.
pub const KIRO_CLI_DB_ENV: &'static str = "KIRO_CLI_DB";

/// Where the database lies, below the home directory.
pub const DEFAULT_KIRO_CLI_DB: &'static str = ".local/share/kiro-cli/data.sqlite3";

/// Credentials that were found, and the database that holds them.
#[derive(Debug)]
pub struct DetectedCredentials {
    pub credentials: KiroCredentials,
    pub db_path: PathBuf,
}

/// The environment variables that tell where the database lies.
#[derive(Debug)]
pub struct Environment {
    /// The variable [`KIRO_CLI_DB_ENV`].
    pub kiro_cli_db: Option<PathBuf>,
    /// `HOME`
    pub home: Option<PathBuf>,
    /// `USERPROFILE`
    pub user_profile: Option<PathBuf>,
}

impl Environment {
    /// The home directory: `HOME`, or else `USERPROFILE`.
    pub open spec fn home_directory(self) -> Option<PathBuf> {
        match self.home {
            Some(home) => Some(home),
            None => self.user_profile,
        }
    }
}

/// `path` is where a lookup goes: to the path that was asked for, or else to
/// the one in `KIRO_CLI_DB`, or else to the default place below the home
/// directory; nowhere without any of them.
pub open spec fn is_db_path(
    db_override: Option<PathBuf>,
    env: Environment,
    path: Option<PathBuf>,
) -> bool {
    match (db_override, env.kiro_cli_db, env.home_directory()) {
        (Some(asked), _, _) => path == Some(asked),
        (None, Some(named), _) => path == Some(named),
        (None, None, Some(home)) => path is Some && paths::is_join(
            home,
            DEFAULT_KIRO_CLI_DB@,
            path->0,
        ),
        (None, None, None) => path is None,
    }
}

/// Chooses the database that a lookup goes to.
pub fn default_db_path(db_override: Option<PathBuf>, env: Environment) -> (r: Option<PathBuf>)
    ensures
        is_db_path(db_override, env, r),
{
    if let Some(path) = db_override {
        return Some(path);
    }
    if let Some(path) = env.kiro_cli_db {
        return Some(path);
    }
    let home = match env.home {
        Some(home) => Some(home),
        None => env.user_profile,
    };
    match home {
        Some(home) => Some(paths::join(home, DEFAULT_KIRO_CLI_DB)),
        None => None,
    }
}

/// The open question of a lookup in a database, with what is known so far.
#[derive(Debug)]
pub enum LoadState {
    IdcToken,
    IdcDevice { idc_token: bool },
    SocialToken { idc_token: bool, idc_device: bool },
    IdcExport,
    SocialExport,
}

impl LoadState {
    /// The query that is open.
    pub open spec fn asks(self) -> Query {
        match self {
            LoadState::IdcToken => Query::IdcToken,
            LoadState::IdcDevice { .. } => Query::IdcDevice,
            LoadState::SocialToken { .. } => Query::SocialToken,
            LoadState::IdcExport => Query::IdcExport,
            LoadState::SocialExport => Query::SocialExport,
        }
    }

    /// The query that is open.
    pub fn query(&self) -> (r: Query)
        ensures
            r == self.asks(),
    {
        match self {
            LoadState::IdcToken => Query::IdcToken,
            LoadState::IdcDevice { .. } => Query::IdcDevice,
            LoadState::SocialToken { .. } => Query::SocialToken,
            LoadState::IdcExport => Query::IdcExport,
            LoadState::SocialExport => Query::SocialExport,
        }
    }
}

/// The next step of a lookup in a database.
#[derive(Debug)]
pub enum LoadStep {
    /// A query is open.
    Ask(LoadState),
    /// The lookup is over: these credentials, or none.
    Loaded(Option<KiroCredentials>),
    /// The lookup failed.
    Failed(DetectError),
}

/// A step over texts.
pub enum LoadStepView {
    Ask(LoadState),
    Loaded(Option<CredentialsView>),
    Failed(DetectErrorView),
}

impl View for LoadStep {
    type V = LoadStepView;

    open spec fn view(&self) -> LoadStepView {
        match self {
            LoadStep::Ask(state) => LoadStepView::Ask(*state),
            LoadStep::Loaded(Some(found)) => LoadStepView::Loaded(Some(found@)),
            LoadStep::Loaded(None) => LoadStepView::Loaded(None),
            LoadStep::Failed(error) => LoadStepView::Failed(error@),
        }
    }
}

/// The end of a lookup whose export query printed `output`.
pub open spec fn load_export(auth_method: Seq<char>, output: Seq<char>) -> LoadStepView {
    match export::exported_row(output) {
        Ok(row) => match export::built(auth_method, row) {
            Ok(found) => LoadStepView::Loaded(Some(found)),
            Err(error) => LoadStepView::Failed(error),
        },
        Err(error) => LoadStepView::Failed(error),
    }
}

/// The step that follows the answer to an open query. A failed query ends the
/// lookup. All three kinds of rows are looked for before one is exported.
pub open spec fn load_next(state: LoadState, reply: ReplyView) -> LoadStepView {
    match reply {
        Err(error) => LoadStepView::Failed(error),
        Ok(output) => match state {
            LoadState::IdcToken => LoadStepView::Ask(
                LoadState::IdcDevice { idc_token: !strings::is_blank(output) },
            ),
            LoadState::IdcDevice { idc_token } => LoadStepView::Ask(
                LoadState::SocialToken { idc_token, idc_device: !strings::is_blank(output) },
            ),
            LoadState::SocialToken { idc_token, idc_device } => if idc_token && idc_device {
                LoadStepView::Ask(LoadState::IdcExport)
            } else if !strings::is_blank(output) {
                LoadStepView::Ask(LoadState::SocialExport)
            } else if idc_token || idc_device {
                LoadStepView::Failed(DetectErrorView::IncompleteIdcRows)
            } else {
                LoadStepView::Loaded(None)
            },
            LoadState::IdcExport => load_export("idc"@, output),
            LoadState::SocialExport => load_export("social"@, output),
        },
    }
}

fn finish_load(auth_method: &str, output: &str) -> (r: LoadStep)
    ensures
        r@ == load_export(auth_method@, output@),
{
    match export::query_export_row(output) {
        Ok(row) => match export::build_credentials(auth_method, row) {
            Ok(found) => LoadStep::Loaded(Some(found)),
            Err(error) => LoadStep::Failed(error),
        },
        Err(error) => LoadStep::Failed(error),
    }
}

/// Begins a lookup in a database.
pub fn load_from_db() -> (r: LoadState)
    ensures
        r == LoadState::IdcToken,
{
    LoadState::IdcToken
}

impl LoadState {
    /// Goes on with the answer to the open query.
    pub fn answered(self, reply: Reply) -> (r: LoadStep)
        ensures
            r@ == load_next(self, sqlite::reply_view(reply)),
    {
        let output = match reply {
            Ok(output) => output,
            Err(error) => return LoadStep::Failed(error),
        };
        match self {
            LoadState::IdcToken => LoadStep::Ask(
                LoadState::IdcDevice { idc_token: export::has_row(output.as_str()) },
            ),
            LoadState::IdcDevice { idc_token } => LoadStep::Ask(
                LoadState::SocialToken { idc_token, idc_device: export::has_row(output.as_str()) },
            ),
            LoadState::SocialToken { idc_token, idc_device } => {
                if idc_token && idc_device {
                    LoadStep::Ask(LoadState::IdcExport)
                } else if export::has_row(output.as_str()) {
                    LoadStep::Ask(LoadState::SocialExport)
                } else if idc_token || idc_device {
                    LoadStep::Failed(DetectError::IncompleteIdcRows)
                } else {
                    LoadStep::Loaded(None)
                }
            },
            LoadState::IdcExport => finish_load("idc", output.as_str()),
            LoadState::SocialExport => finish_load("social", output.as_str()),
        }
    }
}

/// A database path whose file is yet to be looked for.
#[derive(Debug)]
pub struct FileCheck {
    pub db_path: PathBuf,
}

/// A database with an open query.
#[derive(Debug)]
pub struct OpenQuery {
    pub db_path: PathBuf,
    pub state: LoadState,
}

/// The next step of a lookup.
#[derive(Debug)]
pub enum Detection {
    /// Is there a file?
    CheckFile(FileCheck),
    /// What does the database answer?
    RunQuery(OpenQuery),
    /// The lookup is over: these credentials, or none.
    Finished(Option<DetectedCredentials>),
    /// The lookup in this database failed.
    Failed(DetectFailure),
}

/// A step over texts.
pub enum DetectionView {
    CheckFile(PathBuf),
    RunQuery(PathBuf, LoadState),
    Finished(Option<(CredentialsView, PathBuf)>),
    Failed(PathBuf, DetectErrorView),
}

impl View for Detection {
    type V = DetectionView;

    open spec fn view(&self) -> DetectionView {
        match self {
            Detection::CheckFile(check) => DetectionView::CheckFile(check.db_path),
            Detection::RunQuery(open) => DetectionView::RunQuery(open.db_path, open.state),
            Detection::Finished(Some(found)) => DetectionView::Finished(
                Some((found.credentials@, found.db_path)),
            ),
            Detection::Finished(None) => DetectionView::Finished(None),
            Detection::Failed(failure) => DetectionView::Failed(failure.db_path, failure.error@),
        }
    }
}

/// The first step of a lookup at `path`: without a path there is nothing to find.
pub open spec fn detection_start(path: Option<PathBuf>) -> DetectionView {
    match path {
        Some(path) => DetectionView::CheckFile(path),
        None => DetectionView::Finished(None),
    }
}

/// The step that follows the look for the file: without a file there is nothing
/// to find.
pub open spec fn detection_file_checked(db_path: PathBuf, is_file: bool) -> DetectionView {
    if is_file {
        DetectionView::RunQuery(db_path, LoadState::IdcToken)
    } else {
        DetectionView::Finished(None)
    }
}

/// The step of a lookup whose database is at this step.
pub open spec fn detection_of_load(db_path: PathBuf, step: LoadStepView) -> DetectionView {
    match step {
        LoadStepView::Ask(state) => DetectionView::RunQuery(db_path, state),
        LoadStepView::Loaded(Some(found)) => DetectionView::Finished(Some((found, db_path))),
        LoadStepView::Loaded(None) => DetectionView::Finished(None),
        LoadStepView::Failed(error) => DetectionView::Failed(db_path, error),
    }
}

/// `step` is the first step of a lookup at `db_override`, or else at the place
/// that the environment tells.
pub open spec fn is_detection_start(
    db_override: Option<PathBuf>,
    env: Environment,
    step: DetectionView,
) -> bool {
    exists|path: Option<PathBuf>| #[trigger]
        is_db_path(db_override, env, path) && step == detection_start(path)
}

/// Begins a lookup at the place that the environment tells: the same as
/// [`detect_local_credentials_from`] without an override.
pub fn detect_local_credentials(env: Environment) -> (r: Detection)
    ensures
        call_ensures(detect_local_credentials_from, (None::<PathBuf>, env), r),
        is_detection_start(None, env, r@),
{
    detect_local_credentials_from(None, env)
}

/// Begins a lookup at `db_override`, or at the place that the environment tells.
pub fn detect_local_credentials_from(db_override: Option<PathBuf>, env: Environment) -> (r:
    Detection)
    ensures
        is_detection_start(db_override, env, r@),
{
    let path = default_db_path(db_override, env);
    let ghost chosen = path;
    let r = match path {
        Some(db_path) => Detection::CheckFile(FileCheck { db_path }),
        None => Detection::Finished(None),
    };
    proof {
        assert(is_db_path(db_override, env, chosen) && r@ == detection_start(chosen));
    }
    r
}

impl FileCheck {
    /// Goes on with whether the file is there.
    pub fn checked(self, is_file: bool) -> (r: Detection)
        ensures
            r@ == detection_file_checked(self.db_path, is_file),
    {
        if is_file {
            Detection::RunQuery(OpenQuery { db_path: self.db_path, state: load_from_db() })
        } else {
            Detection::Finished(None)
        }
    }
}

impl OpenQuery {
    /// The arguments with which `sqlite3` is run for the open query.
    pub fn arguments(&self) -> (r: Vec<SqliteArg<'_>>)
        ensures
            queries::argument_views(r@) == queries::arguments_for(self.db_path, self.state.asks()),
    {
        queries::sqlite_arguments(&self.db_path, self.state.query())
    }

    /// Goes on with the answer to the open query.
    pub fn answered(self, reply: Reply) -> (r: Detection)
        ensures
            r@ == detection_of_load(
                self.db_path,
                load_next(self.state, sqlite::reply_view(reply)),
            ),
    {
        let db_path = self.db_path;
        match self.state.answered(reply) {
            LoadStep::Ask(state) => Detection::RunQuery(OpenQuery { db_path, state }),
            LoadStep::Loaded(Some(credentials)) => Detection::Finished(
                Some(DetectedCredentials { credentials, db_path }),
            ),
            LoadStep::Loaded(None) => Detection::Finished(None),
            LoadStep::Failed(error) => Detection::Failed(DetectFailure { db_path, error }),
        }
    }
}

/// Whatever [`detect_local_credentials`] gives for an environment,
/// [`detect_local_credentials_from`] gives for it without an override.
pub proof fn law_lookup_without_override(env: Environment, r: Detection)
    requires
        call_ensures(detect_local_credentials, (env,), r),
    ensures
        call_ensures(detect_local_credentials_from, (None::<PathBuf>, env), r),
{
}

/// Two lookups with the same override and environment begin alike. They are the
/// same unless a home directory is joined; then each looks for the file at the
/// default place below that same home directory.
pub proof fn law_same_environment_begins_alike(
    db_override: Option<PathBuf>,
    env: Environment,
    a: DetectionView,
    b: DetectionView,
)
    requires
        is_detection_start(db_override, env, a),
        is_detection_start(db_override, env, b),
    ensures
        db_override is Some || env.kiro_cli_db is Some || env.home_directory() is None ==> a == b,
        db_override is None && env.kiro_cli_db is None && env.home_directory() is Some ==> {
            &&& a matches DetectionView::CheckFile(path) && paths::is_join(
                env.home_directory()->0,
                DEFAULT_KIRO_CLI_DB@,
                path,
            )
            &&& b matches DetectionView::CheckFile(path) && paths::is_join(
                env.home_directory()->0,
                DEFAULT_KIRO_CLI_DB@,
                path,
            )
        },
{
}

/// What the export query of a login gives.
pub open spec fn export_outcome(auth_method: Seq<char>, reply: ReplyView) -> Result<
    Option<CredentialsView>,
    DetectErrorView,
> {
    match reply {
        Err(error) => Err(error),
        Ok(output) => match export::exported_row(output) {
            Err(error) => Err(error),
            Ok(row) => match export::built(auth_method, row) {
                Err(error) => Err(error),
                Ok(found) => Ok(Some(found)),
            },
        },
    }
}

/// What a lookup finds in a database that gives these replies. A failure to look
/// for one of the three kinds of rows comes first, in their order. A complete
/// IdC login goes before a social one; half an IdC login alone is an error.
pub open spec fn load_outcome(replies: spec_fn(Query) -> ReplyView) -> Result<
    Option<CredentialsView>,
    DetectErrorView,
> {
    match (replies(Query::IdcToken), replies(Query::IdcDevice), replies(Query::SocialToken)) {
        (Err(error), _, _) => Err(error),
        (Ok(_), Err(error), _) => Err(error),
        (Ok(_), Ok(_), Err(error)) => Err(error),
        (Ok(token), Ok(device), Ok(social)) => {
            let idc_token = !strings::is_blank(token);
            let idc_device = !strings::is_blank(device);
            if idc_token && idc_device {
                export_outcome("idc"@, replies(Query::IdcExport))
            } else if !strings::is_blank(social) {
                export_outcome("social"@, replies(Query::SocialExport))
            } else if idc_token || idc_device {
                Err(DetectErrorView::IncompleteIdcRows)
            } else {
                Ok(None)
            }
        },
    }
}

/// What a lookup at `path` finds, given whether a file is there and what its
/// database replies.
pub open spec fn detection_outcome(
    path: Option<PathBuf>,
    is_file: bool,
    replies: spec_fn(Query) -> ReplyView,
) -> DetectionView {
    match path {
        None => DetectionView::Finished(None),
        Some(path) => if !is_file {
            DetectionView::Finished(None)
        } else {
            match load_outcome(replies) {
                Ok(Some(found)) => DetectionView::Finished(Some((found, path))),
                Ok(None) => DetectionView::Finished(None),
                Err(error) => DetectionView::Failed(path, error),
            }
        },
    }
}

/// The step that a lookup reaches after so many answers.
pub open spec fn detection_run(
    step: DetectionView,
    is_file: bool,
    replies: spec_fn(Query) -> ReplyView,
    answers: nat,
) -> DetectionView
    decreases answers,
{
    if answers == 0 {
        step
    } else {
        let next = match step {
            DetectionView::CheckFile(path) => detection_file_checked(path, is_file),
            DetectionView::RunQuery(path, state) => detection_of_load(
                path,
                load_next(state, replies(state.asks())),
            ),
            ended => ended,
        };
        detection_run(next, is_file, replies, (answers - 1) as nat)
    }
}

/// A lookup ends after at most five answers, with what the file and the
/// database hold.
pub proof fn law_detection_reaches_its_outcome(
    path: Option<PathBuf>,
    is_file: bool,
    replies: spec_fn(Query) -> ReplyView,
)
    ensures
        detection_run(detection_start(path), is_file, replies, 5) == detection_outcome(
            path,
            is_file,
            replies,
        ),
{
    reveal_with_fuel(detection_run, 6);
}

/// Credentials that are worth keeping: a refresh token that is not blank, one
/// region for all purposes, a login method, and for IdC a client id and secret
/// that are not blank.
pub open spec fn is_complete_login(found: CredentialsView) -> bool {
    &&& found.refresh_token is Some && !strings::is_blank(found.refresh_token->0)
    &&& found.auth_region == found.region && found.api_region == found.region
    &&& found.auth_method == Some("idc"@) || found.auth_method == Some("social"@)
    &&& found.auth_method == Some("idc"@) ==> {
        &&& found.client_id is Some && !strings::is_blank(found.client_id->0)
        &&& found.client_secret is Some && !strings::is_blank(found.client_secret->0)
    }
    &&& found.priority == 0
}

/// A lookup finds only complete logins.
pub proof fn law_detected_login_is_complete(
    path: Option<PathBuf>,
    is_file: bool,
    replies: spec_fn(Query) -> ReplyView,
)
    ensures
        detection_outcome(path, is_file, replies) matches DetectionView::Finished(Some((found, at)))
            ==> is_complete_login(found) && Some(at) == path,
{
    lemma_export_is_complete("idc"@, replies(Query::IdcExport));
    lemma_export_is_complete("social"@, replies(Query::SocialExport));
}

proof fn lemma_export_is_complete(auth_method: Seq<char>, reply: ReplyView)
    requires
        auth_method == "idc"@ || auth_method == "social"@,
    ensures
        export_outcome(auth_method, reply) matches Ok(Some(found)) ==> is_complete_login(found),
{
    if reply is Ok && export::exported_row(reply->Ok_0) is Ok {
        let row = export::exported_row(reply->Ok_0)->Ok_0;
        strings::law_trimmed_is_idempotent(row.client_id);
        strings::law_trimmed_is_idempotent(row.client_secret);
    }
}

/// A complete IdC login goes before a social one: whether there is a social
/// login, and what it holds, does not matter then.
pub proof fn law_idc_login_goes_first(
    replies: spec_fn(Query) -> ReplyView,
    others: spec_fn(Query) -> ReplyView,
)
    requires
        replies(Query::IdcToken) is Ok && !strings::is_blank(replies(Query::IdcToken)->Ok_0),
        replies(Query::IdcDevice) is Ok && !strings::is_blank(replies(Query::IdcDevice)->Ok_0),
        replies(Query::SocialToken) is Ok && others(Query::SocialToken) is Ok,
        forall|query: Query|
            query != Query::SocialToken && query != Query::SocialExport ==> #[trigger] replies(
                query,
            ) == others(query),
    ensures
        load_outcome(replies) == load_outcome(others),
{
    assert(replies(Query::IdcToken) == others(Query::IdcToken));
    assert(replies(Query::IdcDevice) == others(Query::IdcDevice));
    assert(replies(Query::IdcExport) == others(Query::IdcExport));
}

} // verus!
