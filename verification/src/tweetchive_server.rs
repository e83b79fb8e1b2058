//! The archive server: its configuration, its API, the login tokens and
//! accounts of its users, its snapshot lookups, its queries and views, and
//! its search page.

pub mod api;
pub mod auth;
pub mod config;
pub mod queries;
pub mod search_page;
pub mod snapshot;
pub mod views;

use vstd::prelude::*;

verus! {

/// The server's caches (none yet).
pub struct Caches {}

} // verus!
