//! The server's configuration.

use vstd::prelude::*;

verus! {

/// The database address, the server's secret, its scraper workers, the
/// GitHub application it logs users in with, and the GitHub logins of its
/// administrators.
#[derive(Clone, Debug)]
pub struct Config {
    pub database: String,
    pub super_secret_key: String,
    pub workers: Vec<Worker>,
    pub github_client_id: String,
    pub github_client_secret: String,
    pub admin_github_users: Vec<String>,
}

/// A scraper worker: its address and its health-check secret.
#[derive(Clone, Debug)]
pub struct Worker {
    pub ip: String,
    pub ssk: String,
}

} // verus!
