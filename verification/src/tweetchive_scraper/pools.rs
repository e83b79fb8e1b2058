//! The choice of the account that a new scraper logs in with.

use crate::tweetchive_scraper::config::Account;
use nanorand::Rng;
use vstd::prelude::*;
use vstd::string::*;

verus! {

#[verifier::external_type_specification]
#[verifier::external_body]
pub struct ExWyRand(nanorand::WyRand);

/// Calls `nanorand::Rng::generate_range(rng, 0..len)`, which for `len > 0`
/// gives a number below `len`; which number is left to chance.
#[verifier::external_body]
fn random_below(rng: &mut nanorand::WyRand, len: usize) -> (i: usize)
    requires
        len > 0,
    ensures
        i < len,
{
    rng.generate_range(0..len)
}

/// Why a scraper cannot be made without accounts.
pub open spec fn no_account_message() -> Seq<char> {
    "There must be more than 1 account"@
}

/// Picks, at random, the position of the account a new scraper logs in
/// with; fails when there is no account.
pub fn choose_account(accounts: &Vec<Account>, rng: &mut nanorand::WyRand) -> (r: Result<
    usize,
    String,
>)
    ensures
        r is Err <==> accounts@.len() == 0,
        r matches Ok(i) ==> i < accounts@.len(),
        r matches Err(m) ==> m@ == no_account_message(),
{
    if accounts.len() == 0 {
        return Err(String::from_str("There must be more than 1 account"));
    }
    Ok(random_below(rng, accounts.len()))
}

} // verus!
