//! Constants for carrying a token in a browser cookie.

use vstd::prelude::*;

verus! {

/// The name of the cookie a web browser should send the token in when
/// connecting to the hub.
pub const MERCURE_AUTHORIZATION_COOKIE_NAME: &'static str = "mercureAuthorization";

/// The hard ceiling on a cookie lifetime, in seconds: 400 days, from the
/// governing cookie-lifetime specification.
pub const MAX_AGE_LIMIT_SECS: u64 = 34560000;

} // verus!
