//! Rejection error for requests the gateway denies.

use vstd::prelude::*;

verus! {

/// Error value carried by a rejected request; the HTTP layer renders it
/// as an unauthorized response.
#[derive(Debug)]
pub struct UnauthorizedAccess {
    pub name: &'static str,
}

/// The error value produced for every gateway rejection.
pub fn rejection_error() -> (e: UnauthorizedAccess)
    ensures
        e.name@ == "Unauthorized"@,
{
    UnauthorizedAccess { name: "Unauthorized" }
}

} // verus!
