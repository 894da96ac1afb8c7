//! The configuration file of the docker client.

use vstd::prelude::*;
use crate::text::opt_text;
use crate::utils::map::TextMap;

verus! {

/// How to log in to one registry.
#[derive(Debug, PartialEq, Eq)]
pub struct AuthConfig {
    pub username: Option<String>,
    pub password: Option<String>,
    /// `username:password` in base64.
    pub auth: Option<String>,
}

pub struct AuthConfigView {
    pub username: Option<Seq<char>>,
    pub password: Option<Seq<char>>,
    pub auth: Option<Seq<char>>,
}

impl View for AuthConfig {
    type V = AuthConfigView;

    open spec fn view(&self) -> AuthConfigView {
        AuthConfigView {
            username: opt_text(self.username),
            password: opt_text(self.password),
            auth: opt_text(self.auth),
        }
    }
}

/// The content of `.dockerconfigjson`: the registries by their endpoints.
pub struct DockerConfig {
    pub auths: Option<TextMap<AuthConfig>>,
}

/// The endpoints with the views of their entries, in order.
pub open spec fn auths_view(pairs: Seq<(Seq<char>, AuthConfig)>) -> Seq<(Seq<char>, AuthConfigView)> {
    Seq::new(pairs.len(), |i: int| (pairs[i].0, pairs[i].1@))
}

impl View for DockerConfig {
    type V = Option<Seq<(Seq<char>, AuthConfigView)>>;

    open spec fn view(&self) -> Option<Seq<(Seq<char>, AuthConfigView)>> {
        match self.auths {
            Some(auths) => Some(auths_view(auths.pairs())),
            None => None,
        }
    }
}

} // verus!
