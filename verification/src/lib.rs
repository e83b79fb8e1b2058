//! Verified core of the tweet archiving service: the shared message and
//! diff types, the request and URL formats, and the decisions that the
//! scraper and the server take between their network calls.

pub mod dbtypes;
pub mod id_map;
pub mod strings;
pub mod text;
pub mod tweetchive_core;
pub mod tweetchive_scraper;
pub mod tweetchive_server;
pub mod twitchive_unofficial;
pub mod uuid_text;

use vstd::prelude::*;

verus! {

} // verus!
