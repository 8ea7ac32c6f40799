//! Kiro credentials: discovery in the local Kiro CLI login database, import into
//! a credentials file, and the start-up decisions of the proxy that uses them.

pub mod arg;
pub mod cli_credentials;
pub mod credentials;
pub mod detect_error;
pub mod expiry;
pub mod export;
pub mod import;
pub mod laws;
pub mod paths;
pub mod queries;
pub mod save;
pub mod sqlite;
pub mod startup;
pub mod strings;
