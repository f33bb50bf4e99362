//! The data carried across the interface to the backend service, and the
//! base address its endpoints hang off.

use vstd::prelude::*;

verus! {

use vstd::string::StringExecFns;
use crate::config::or_default;

/// An authenticated user as the backend reports it.
#[derive(PartialEq)]
pub struct User {
    pub id: i32,
    pub username: String,
    pub created_at: String,
}

/// The body of a successful login: the session token.
pub struct LoginResponse {
    pub token: String,
}

/// The body of the who-am-i endpoint.
pub struct MeResponse {
    pub id: i32,
    pub username: String,
    pub created_at: String,
}

/// A crate record.
#[derive(Clone, PartialEq)]
pub struct Crate {
    pub id: i32,
    pub rustacean_id: i32,
    pub name: String,
    pub code: String,
    pub version: String,
    pub description: Option<String>,
    pub created_at: String,
}

/// An author record.
#[derive(Clone, PartialEq)]
pub struct Rustacean {
    pub id: i32,
    pub name: String,
    pub email: String,
    pub created_at: String,
}

/// The backend base address for given host and port values, with the
/// defaults that apply when they are unset.
pub open spec fn app_base_spec(host: Option<Seq<char>>, port: Option<Seq<char>>) -> Seq<char> {
    "http://"@ + or_default(host, "127.0.0.1"@) + ":"@ + or_default(port, "8000"@) + "/cr8s"@
}

/// Builds the backend base address from the externally supplied host and
/// port, defaulting each where unset.
pub fn app_base(host: &Option<String>, port: &Option<String>) -> (r: String)
    ensures
        r@ == app_base_spec(host.deep_view(), port.deep_view()),
{
    let mut r = String::from_str("http://");
    match host {
        Option::Some(h) => r.append(h.as_str()),
        Option::None => r.append("127.0.0.1"),
    }
    r.append(":");
    match port {
        Option::Some(p) => r.append(p.as_str()),
        Option::None => r.append("8000"),
    }
    r.append("/cr8s");
    r
}

} // verus!
