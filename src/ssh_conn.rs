//! Connection details for a remote shell backend, which this library only
//! describes: no remote session is ever started.

use vstd::prelude::*;

verus! {

/// Where and as whom to connect for a remote shell.
pub struct HostInfo {
    pub host: String,
    pub port: u16,
    pub username: String,
    pub password: Option<String>,
    pub private_key: Option<String>,
}

/// The view of an optional borrowed string.
pub open spec fn opt_str_view(s: Option<&str>) -> Option<Seq<char>> {
    match s {
        Some(t) => Some(t@),
        None => None,
    }
}

/// The view of an optional owned string.
pub open spec fn opt_string_view(s: Option<String>) -> Option<Seq<char>> {
    match s {
        Some(t) => Some(t@),
        None => None,
    }
}

fn owned_opt(s: Option<&str>) -> (r: Option<String>)
    ensures
        opt_string_view(r) == opt_str_view(s),
{
    match s {
        Some(t) => Some(t.to_owned()),
        None => None,
    }
}

impl HostInfo {
    /// Copies the given connection details into an owned record.
    pub fn new(
        host: &str,
        port: u16,
        username: &str,
        password: Option<&str>,
        private_key: Option<&str>,
    ) -> (r: Self)
        ensures
            r.host@ == host@,
            r.port == port,
            r.username@ == username@,
            opt_string_view(r.password) == opt_str_view(password),
            opt_string_view(r.private_key) == opt_str_view(private_key),
    {
        HostInfo {
            host: host.to_owned(),
            port,
            username: username.to_owned(),
            password: owned_opt(password),
            private_key: owned_opt(private_key),
        }
    }
}

/// A remote shell connection. It holds no live resources: the remote
/// backend is an extension point that refuses every operation.
pub struct SshConn {}

} // verus!
