//! The paths under which the service answers.

use vstd::prelude::*;

verus! {

/// The path of each route.
pub struct Paths<'a> {
    pub signup: &'a str,
    pub login: &'a str,
    pub logout: &'a str,
    pub verify_2fa: &'a str,
    pub verify_token: &'a str,
}

/// The configuration of the service.
pub struct AppConfig<'a> {
    pub paths: Paths<'a>,
}

impl AppConfig<'_> {
    /// The configuration in use: every route under its own name.
    pub fn config() -> (made: Self)
        ensures
            made.paths.login@ == "/login"@,
            made.paths.logout@ == "/logout"@,
            made.paths.signup@ == "/signup"@,
            made.paths.verify_2fa@ == "/verify-2fa"@,
            made.paths.verify_token@ == "/verify-token"@,
    {
        let paths = Paths {
            login: "/login",
            logout: "/logout",
            signup: "/signup",
            verify_2fa: "/verify-2fa",
            verify_token: "/verify-token",
        };
        Self { paths }
    }
}

/// The address of the cache on a host.
pub fn redis_url(hostname: &str) -> (url: String)
    ensures
        url@ == "redis://"@ + hostname@ + "/"@,
{
    let mut url = "redis://".to_owned();
    url.append(hostname);
    url.append("/");
    url
}

} // verus!
