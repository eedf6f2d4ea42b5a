//! The credentials of a session.

use vstd::prelude::*;

verus! {

/// Name of the setting that supplies the bearer token.
pub const TOKEN_SETTING: &'static str = "ACCOUNT_TOKEN";

/// The bearer token that authenticates every request of a session. It is
/// taken in once, at startup, and never changes. It has no `Debug` form, so
/// that it does not end up in a log.
#[derive(Clone, PartialEq, Eq)]
pub struct Credentials {
    token: String,
}

/// The setting that supplies the bearer token is absent.
#[derive(Debug, Clone, Copy, PartialEq, Eq)]
pub struct MissingCredential;

impl View for Credentials {
    type V = Seq<char>;

    closed spec fn view(&self) -> Seq<char> {
        self.token@
    }
}

impl Credentials {
    /// Takes the token from the value of its setting, which is `None` where
    /// the setting is absent. A session cannot start without it.
    pub fn from_setting(setting: Option<String>) -> (result: Result<Credentials, MissingCredential>)
        ensures
            match result {
                Ok(credentials) => setting matches Some(token) && credentials@ == token@,
                Err(_) => setting is None,
            },
    {
        match setting {
            Some(token) => Ok(Credentials { token }),
            None => Err(MissingCredential),
        }
    }

    /// The token, to be sent with a request.
    pub fn bearer_token(&self) -> (token: &str)
        ensures
            token@ == self@,
    {
        self.token.as_str()
    }
}

} // verus!
