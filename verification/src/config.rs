//! What a program is told of the portal: where it is, and as whom to log in.

use vstd::prelude::*;

verus! {

/// The configuration of a session.
#[derive(Debug, PartialEq, Eq)]
pub struct Config {
    /// The base address of the portal.
    pub url: String,
    /// The user's name, where the session logs in.
    pub username: Option<String>,
    /// The user's password, where the session logs in.
    pub password: Option<String>,
}

/// The name and password to log in with: both, or none.
pub open spec fn credentials_of(username: Option<Seq<char>>, password: Option<Seq<char>>) -> Option<
    (Seq<char>, Seq<char>),
> {
    match (username, password) {
        (Some(username), Some(password)) => Some((username, password)),
        _ => None,
    }
}

impl Config {
    /// The name and password to log in with. A configuration that lacks
    /// either asks for a session without authentication.
    pub fn credentials(&self) -> (r: Option<(String, String)>)
        ensures
            r.deep_view() == credentials_of(self.username.deep_view(), self.password.deep_view()),
    {
        match (&self.username, &self.password) {
            (Some(username), Some(password)) => Some((username.clone(), password.clone())),
            _ => None,
        }
    }
}

} // verus!
