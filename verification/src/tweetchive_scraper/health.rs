//! The health check: it answers only to the holder of the shared secret.

use vstd::prelude::*;
use vstd::string::*;

verus! {

/// The status the health check answers with to a wrong or missing secret.
pub const UNAUTHORIZED: u16 = 401;

/// The health check is passed exactly when the secret `provided` in the
/// request equals the configured `ssk`.
pub open spec fn status_ok(provided: Option<Seq<char>>, ssk: Seq<char>) -> bool {
    provided == Some(ssk)
}

/// The health check: `Ok` to a request that carries the configured secret,
/// `Err(401)` to any other.
pub fn status(provided: Option<&str>, ssk: &str) -> (r: Result<(), u16>)
    ensures
        r is Ok <==> status_ok(
            match provided {
                Some(p) => Some(p@),
                None => None,
            },
            ssk@,
        ),
        r matches Err(code) ==> code == UNAUTHORIZED,
{
    match provided {
        Some(p) => {
            if String::from_str(p) == String::from_str(ssk) {
                Ok(())
            } else {
                Err(UNAUTHORIZED)
            }
        },
        None => Err(UNAUTHORIZED),
    }
}

} // verus!
