//! The request checks of the authentication middleware: which paths are open and
//! which cookies carry the tokens.
use vstd::prelude::*;

use crate::text::str_equals;

verus! {

/// The cookie that carries the ID token.
pub const ID_TOKEN_COOKIE_NAME: &'static str = "ID_TOKEN";

/// The cookie that carries the refresh token.
pub const REFRESH_TOKEN_COOKIE_NAME: &'static str = "REFRESH_TOKEN";

/// The health check path, open without authentication.
pub const HEALTH_PATH: &'static str = "/health";

/// The sign-in path, open without authentication.
pub const SIGN_IN_PATH: &'static str = "/ec-extension/auth/sign-in";

/// The paths that need no authentication.
pub open spec fn is_excluded_path(path: Seq<char>) -> bool {
    path == HEALTH_PATH@ || path == SIGN_IN_PATH@
}

/// Whether a request to `path` must be authenticated.
pub fn requires_authentication(path: &str) -> (b: bool)
    ensures
        b == !is_excluded_path(path@),
{
    !(str_equals(path, HEALTH_PATH) || str_equals(path, SIGN_IN_PATH))
}

} // verus!
