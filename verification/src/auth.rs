//! Session claims.

use vstd::prelude::*;

verus! {

/// The claims carried by a session token: subject, e-mail address and expiry
/// as seconds since the Unix epoch.
#[derive(Debug, Clone, PartialEq, Eq)]
pub struct Claims {
    pub sub: String,
    pub email: String,
    pub exp: usize,
}

} // verus!
