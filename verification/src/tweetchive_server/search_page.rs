//! What the search box of the web page is given: a link to follow, or a
//! number to look up as a tweet and as an account.

use crate::text::{parse_u64, parse_u64_spec};
use crate::tweetchive_server::api::{parsed_url_path, url_path};
use vstd::prelude::*;

verus! {

/// What was typed into the search box.
pub enum SearchInput {
    /// A URL: the page redirects to its path.
    Redirect(String),
    /// A number: a tweet id and an account id to look up.
    Id(u64),
    /// Neither.
    Unknown,
}

/// Reads the search box: a URL first, a number next.
pub fn classify_search(input: &str) -> (r: SearchInput)
    ensures
        parsed_url_path(input@) matches Some(p) ==> r matches SearchInput::Redirect(q) && q@ == p,
        parsed_url_path(input@) is None ==> match parse_u64_spec(input@) {
            Some(id) => r matches SearchInput::Id(n) && n == id,
            None => r is Unknown,
        },
{
    match url_path(input) {
        Some(p) => SearchInput::Redirect(p),
        None => match parse_u64(input) {
            Some(id) => SearchInput::Id(id),
            None => SearchInput::Unknown,
        },
    }
}

} // verus!
