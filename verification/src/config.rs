//! The application's configuration values, as plain data. Reading and
//! parsing the configuration file is the surrounding program's work.

use vstd::prelude::*;

verus! {

/// Where the tracking state lives.
#[derive(Debug, Clone)]
pub struct StateFilePath(pub String);

impl StateFilePath {
    /// The path used when the configuration names none.
    pub fn default_path() -> (r: StateFilePath)
        ensures
            r.0@ == "tvtrack.state.json"@,
    {
        StateFilePath(String::from_str("tvtrack.state.json"))
    }
}

/// Credentials for the catalogue service.
#[derive(Debug, Clone)]
pub struct TMDBConfig {
    pub api_key: String,
    pub api_access_token: String,
}

/// Where and how to reach the mail relay.
#[derive(Debug, Clone)]
pub struct SMTPConfig {
    pub host: String,
    pub port: u16,
    pub user: String,
    pub password: String,
}

/// The addresses notifications are sent from and to.
#[derive(Debug, Clone)]
pub struct EmailsConfig {
    pub from_name: Option<String>,
    pub from_address: String,
    pub to_name: Option<String>,
    pub to_address: String,
}

/// Everything the program is configured with.
#[derive(Debug, Clone)]
pub struct AppConfig {
    pub state_file_path: StateFilePath,
    pub tmdb: TMDBConfig,
    pub smtp: SMTPConfig,
    pub emails: EmailsConfig,
}

} // verus!
