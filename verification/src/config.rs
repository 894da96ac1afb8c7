//! What a user has configured.

use vstd::prelude::*;
use crate::text::{opt_text, text_or_empty};

verus! {

/// The credential for one registry.
pub struct Credential {
    pub username: Option<String>,
    pub password: Option<String>,
}

pub struct CredentialView {
    pub username: Option<Seq<char>>,
    pub password: Option<Seq<char>>,
}

impl View for Credential {
    type V = CredentialView;

    open spec fn view(&self) -> CredentialView {
        CredentialView { username: opt_text(self.username), password: opt_text(self.password) }
    }
}

impl CredentialView {
    /// The user name, or the empty text where none is set.
    pub open spec fn username_any(self) -> Seq<char> {
        match self.username {
            Some(t) => t,
            None => Seq::empty(),
        }
    }

    /// The password, or the empty text where none is set.
    pub open spec fn password_any(self) -> Seq<char> {
        match self.password {
            Some(t) => t,
            None => Seq::empty(),
        }
    }
}

impl Credential {
    /// The user name, or the empty string where none is set.
    pub fn username_any(&self) -> (name: String)
        ensures
            name@ == self@.username_any(),
    {
        text_or_empty(&self.username)
    }

    /// The password, or the empty string where none is set.
    pub fn password_any(&self) -> (password: String)
        ensures
            password@ == self@.password_any(),
    {
        text_or_empty(&self.password)
    }
}

} // verus!
