//! The cookies that carry a session, the service's settings, and the empty form.

use vstd::prelude::*;

verus! {

/// The cookie that holds the username.
pub const COOKIE_USERNAME: &'static str = "jotsy_user";

/// The cookie that holds the session secret.
pub const COOKIE_TOKEN: &'static str = "jotsy_token";

/// How many days a session cookie lasts.
pub const SESSION_DAYS: u32 = 15;

/// When a cookie expires.
#[derive(Clone, Copy, Debug, PartialEq, Eq, Structural)]
pub enum Expiry {
    /// This many days from now.
    InDays(u32),
    /// At the start of 1970, which has the browser drop it at once.
    Epoch,
}

/// A cookie to set in the browser.
pub struct CookieSpec {
    pub name: String,
    pub value: String,
    pub expiry: Expiry,
    pub same_site_strict: bool,
    pub secure: bool,
    pub http_only: bool,
    pub path: String,
}

/// A session cookie: lasting `SESSION_DAYS` days, sent only to this site, only
/// over HTTPS, hidden from scripts, for every path.
pub fn create_cookie(name: &str, value: &str) -> (r: CookieSpec)
    ensures
        r.name@ == name@,
        r.value@ == value@,
        r.expiry == Expiry::InDays(SESSION_DAYS),
        r.same_site_strict,
        r.secure,
        r.http_only,
        r.path@ == "/"@,
{
    CookieSpec {
        name: name.to_owned(),
        value: value.to_owned(),
        expiry: Expiry::InDays(SESSION_DAYS),
        same_site_strict: true,
        secure: true,
        http_only: true,
        path: "/".to_owned(),
    }
}

/// The cookie that clears the cookie `name`: empty, expired, for every path.
pub fn create_remove_cookie(name: &str) -> (r: CookieSpec)
    ensures
        r.name@ == name@,
        r.value@.len() == 0,
        r.expiry == Expiry::Epoch,
        r.path@ == "/"@,
{
    CookieSpec {
        name: name.to_owned(),
        value: String::new(),
        expiry: Expiry::Epoch,
        same_site_strict: false,
        secure: false,
        http_only: false,
        path: "/".to_owned(),
    }
}

/// The service's settings.
pub struct Config {
    /// Where the store listens.
    pub sky_host: String,
    pub sky_port: u16,
    /// Where the service listens.
    pub host: String,
    pub port: u16,
    /// Whether new accounts may be made.
    pub signup_enabled: bool,
    pub is_prod: bool,
}

/// A form with no fields.
pub struct Empty {}

} // verus!
