//! The server's configuration.
use vstd::prelude::*;

verus! {

/// Where the server keeps its data, where it listens, how often it
/// synchronises, where the web front end lies and where GitHub answers.
#[derive(Debug, PartialEq)]
pub struct AppConfig {
    pub database_path: String,
    pub server_host: String,
    pub server_port: u16,
    pub sync_interval_seconds: u64,
    pub frontend_dist_path: String,
    pub github_api_base_url: String,
}

impl Clone for AppConfig {
    fn clone(&self) -> (r: Self)
        ensures
            r == *self,
    {
        AppConfig {
            database_path: self.database_path.clone(),
            server_host: self.server_host.clone(),
            server_port: self.server_port,
            sync_interval_seconds: self.sync_interval_seconds,
            frontend_dist_path: self.frontend_dist_path.clone(),
            github_api_base_url: self.github_api_base_url.clone(),
        }
    }
}

/// The configuration used where none is given.
pub open spec fn is_default_config(c: AppConfig) -> bool {
    &&& c.database_path@ == "./data.db"@
    &&& c.server_host@ == "127.0.0.1"@
    &&& c.server_port == 8080
    &&& c.sync_interval_seconds == 3600
    &&& c.frontend_dist_path@ == "./frontend/dist"@
    &&& c.github_api_base_url@ == "https://api.github.com"@
}

impl Default for AppConfig {
    /// The configuration used where none is given: `./data.db`, listening on
    /// 127.0.0.1:8080, synchronising hourly, the front end in
    /// `./frontend/dist`, GitHub at `https://api.github.com`.
    fn default() -> (c: Self)
        ensures
            is_default_config(c),
    {
        AppConfig {
            database_path: String::from_str("./data.db"),
            server_host: String::from_str("127.0.0.1"),
            server_port: 8080,
            sync_interval_seconds: 3600,
            frontend_dist_path: String::from_str("./frontend/dist"),
            github_api_base_url: String::from_str("https://api.github.com"),
        }
    }
}

impl AppConfig {
    /// The configuration in force: the one read from the configuration file
    /// where it could be read and parsed, else the default.
    pub fn from_parsed(parsed: Option<AppConfig>) -> (c: AppConfig)
        ensures
            parsed matches Some(p) ==> c == p,
            parsed is None ==> is_default_config(c),
    {
        match parsed {
            Some(p) => p,
            None => AppConfig::default(),
        }
    }
}

} // verus!
