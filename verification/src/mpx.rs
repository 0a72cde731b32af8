//! The handle naming one power distribution unit: its host and the basic
//! credentials used when commands are posted.  Transport itself lives with
//! the caller; this core only carries the addressing data.

use vstd::prelude::*;

verus! {

/// One power distribution unit, by host name and credentials.
#[derive(Clone, Debug)]
pub struct MPX {
    /// Host name or address of the unit's web interface.
    pub host: String,
    /// User name for posting commands.
    pub username: String,
    /// Password for posting commands.
    pub password: String,
}

impl MPX {
    /// A handle for the unit at `host` with the given credentials.
    pub fn new(host: &str, username: &str, password: &str) -> (r: MPX)
        ensures
            r.host@ == host@,
            r.username@ == username@,
            r.password@ == password@,
    {
        MPX { host: host.to_owned(), username: username.to_owned(), password: password.to_owned() }
    }
}

} // verus!
