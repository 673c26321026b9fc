//! The password handshake of the two-player demo server.

use vstd::prelude::*;
use std::string::String;

verus! {

/// A login request: the name and password that a client presents.
pub struct Auth {
    pub username: String,
    pub password: String,
}

impl Auth {
    pub fn new(username: &str, password: &str) -> (a: Auth)
        ensures
            a.username@ == username@,
            a.password@ == password@,
    {
        Auth { username: username.to_owned(), password: password.to_owned() }
    }
}

/// Whether the server lets a client with these credentials in.
pub open spec fn spec_accepts(username: Seq<char>, password: Seq<char>) -> bool {
    username == "charlie"@ && password == "12345"@
}

/// The server's answer to a login request: in exactly when the name is
/// "charlie" and the password "12345".
pub fn accepts(auth: &Auth) -> (ok: bool)
    ensures
        ok == spec_accepts(auth.username@, auth.password@),
{
    let name = "charlie".to_owned();
    let password = "12345".to_owned();
    auth.username == name && auth.password == password
}

} // verus!
