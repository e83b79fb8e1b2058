//! The scraper worker: its configuration, its health check, the choice of
//! account, media handling, the crawls behind an archival request, the
//! request loop and the browser login.

pub mod browser;
pub mod config;
pub mod crawl;
pub mod health;
pub mod listen;
pub mod media;
pub mod media_archive;
pub mod pools;
pub mod thread_crawl;
pub mod user_crawl;


use vstd::prelude::*;

verus! {

} // verus!
