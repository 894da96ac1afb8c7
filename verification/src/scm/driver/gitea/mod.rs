//! The adapter for Gitea.

pub mod constants;
pub mod driver;
pub mod git;

use vstd::prelude::*;
use crate::http::{with_trailing_slash, Client, ClientView};
use crate::scm::driver::gitea::constants::GITEA_ENDPOINT;
use crate::scm::driver::gitea::driver::GiteaDriver;
use crate::scm::driver::Driver;
use crate::text::opt_text;

verus! {

/// Returns a new Gitea driver for the hosted service, without a token.
pub fn default() -> (driver: Driver)
    ensures
        driver.client_view() == (ClientView {
            base_url: with_trailing_slash(GITEA_ENDPOINT@),
            token: None,
        }),
        driver is Gitea,
{
    from(Client::new(GITEA_ENDPOINT, None))
}

/// Returns a new Gitea driver for the instance at `url`.
pub fn new(url: &str, token: Option<String>) -> (driver: Driver)
    ensures
        driver.client_view() == (ClientView {
            base_url: with_trailing_slash(url@),
            token: opt_text(token),
        }),
        driver is Gitea,
{
    from(Client::new(url, token))
}

/// Returns a new Gitea driver that uses the given client.
pub fn from(client: Client) -> (driver: Driver)
    ensures
        driver == Driver::Gitea(GiteaDriver { client }),
{
    Driver::Gitea(GiteaDriver { client })
}

} // verus!
