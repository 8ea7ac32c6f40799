//! Command line arguments.

use vstd::prelude::*;
use crate::strings;

verus! {

/// What the command line asks for.
#[derive(Clone, Debug)]
pub struct Args {
    /// Path of the configuration file.
    pub config: Option<String>,
    /// Path of the credentials file.
    pub credentials: Option<String>,
    /// Import credentials from the local Kiro CLI login database, then exit.
    pub import_kiro_cli_credentials: bool,
    /// Path of the Kiro CLI SQLite database, in place of the usual one.
    pub kiro_cli_db: Option<String>,
}

/// A value, or the one to use where there is none.
pub open spec fn or_default(value: Option<Seq<char>>, default: Seq<char>) -> Seq<char> {
    match value {
        Some(text) => text,
        None => default,
    }
}

fn value_or(value: &Option<String>, default: &str) -> (r: String)
    ensures
        r@ == or_default(strings::text_of(*value), default@),
{
    match value {
        Some(text) => text.clone(),
        None => default.to_owned(),
    }
}

impl Args {
    /// Path of the configuration file.
    pub fn config_path(&self, default: &str) -> (r: String)
        ensures
            r@ == or_default(strings::text_of(self.config), default@),
    {
        value_or(&self.config, default)
    }

    /// Path of the credentials file.
    pub fn credentials_path(&self, default: &str) -> (r: String)
        ensures
            r@ == or_default(strings::text_of(self.credentials), default@),
    {
        value_or(&self.credentials, default)
    }
}

} // verus!
