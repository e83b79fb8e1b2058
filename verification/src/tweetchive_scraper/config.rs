//! The scraper's configuration: its name, the shared secret of its health
//! check, its worker counts, and the accounts it scrapes with.

use vstd::prelude::*;

verus! {

#[derive(Clone, Debug)]
pub struct Config {
    pub machine_name: String,
    pub ssk: String,
    pub worker: Worker,
    pub accounts: Vec<Account>,
}

#[derive(Clone, Copy, Debug, PartialEq, Eq, Structural)]
pub struct Worker {
    pub search_workers: u16,
    pub tweet_workers: u16,
    pub profile_workers: u16,
    pub download_workers: u16,
}

#[derive(Clone, Debug)]
pub struct Account {
    pub username: String,
    pub password: String,
    pub assigned_proxy: Option<Proxy>,
}

#[derive(Clone, Debug)]
pub struct Proxy {
    pub ip: String,
    pub username: String,
    pub password: String,
}

} // verus!
