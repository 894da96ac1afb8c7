//! From registry credentials to the docker client's configuration.

use vstd::prelude::*;
use vstd::string::StringExecFns;
use base64::Engine;
use crate::config::{Credential, CredentialView};
use crate::docker::{auths_view, AuthConfig, AuthConfigView, DockerConfig};
use crate::utils::map::{keys_distinct, lemma_next_key_is_new, TextMap};

verus! {

/// The base64 encoding of the UTF-8 bytes of `text`, in the standard alphabet
/// and padded with `=`.
pub uninterp spec fn base64_standard(text: Seq<char>) -> Seq<char>;

/// Calls `Engine::encode` of the crate base64 on its `STANDARD` engine. The
/// result is taken to be a function of the text alone, which the contract
/// names `base64_standard`. Nothing else is claimed of it. The call panics
/// where the encoded length is beyond `usize`, which no string reaches: a
/// string holds at most `isize::MAX` bytes, and four thirds of that fit.
#[verifier::external_body]
fn encode_base64(text: &str) -> (encoded: String)
    ensures
        encoded@ == base64_standard(text@),
{
    base64::engine::general_purpose::STANDARD.encode(text)
}

/// What the docker client presents to a registry: `username:password`.
pub open spec fn spec_login_text(credential: CredentialView) -> Seq<char> {
    credential.username_any() + ":"@ + credential.password_any()
}

/// The entry for a credential, given the encoded login text `auth`.
pub open spec fn spec_auth_config(credential: CredentialView, auth: Seq<char>) -> AuthConfigView {
    AuthConfigView {
        username: Some(credential.username_any()),
        password: Some(credential.password_any()),
        auth: Some(auth),
    }
}

/// The entry that the configuration holds for a credential.
pub open spec fn spec_entry_for(credential: CredentialView) -> AuthConfigView {
    spec_auth_config(credential, base64_standard(spec_login_text(credential)))
}

/// The configuration for the given registries: each endpoint keeps its place
/// and gets the entry for its credential.
pub open spec fn spec_docker_config(entries: Seq<(Seq<char>, Credential)>) -> Seq<(Seq<char>, AuthConfigView)> {
    Seq::new(entries.len(), |i: int| (entries[i].0, spec_entry_for(entries[i].1@)))
}

/// The text `username:password` of a credential.
pub fn login_text(credential: &Credential) -> (text: String)
    ensures
        text@ == spec_login_text(credential@),
{
    let mut text = credential.username_any();
    text.append(":");
    text.append(credential.password_any().as_str());
    text
}

/// Builds the entry for a credential from its encoded login text.
pub fn auth_config(credential: &Credential, auth: String) -> (entry: AuthConfig)
    ensures
        entry@ == spec_auth_config(credential@, auth@),
{
    AuthConfig {
        username: Some(credential.username_any()),
        password: Some(credential.password_any()),
        auth: Some(auth),
    }
}

/// Builds the content of a `.dockerconfigjson` for the given registries.
pub fn build_docker_config(entries: &TextMap<Credential>) -> (config: DockerConfig)
    ensures
        config@ == Some(spec_docker_config(entries.pairs())),
{
    let mut auths: TextMap<AuthConfig> = TextMap::new();
    let n = entries.len();
    let mut i: usize = 0;
    assert(auths_view(auths.pairs()) =~= spec_docker_config(entries.pairs()).take(0));
    while i < n
        invariant
            i <= n,
            n == entries.pairs().len(),
            keys_distinct(entries.pairs()),
            auths_view(auths.pairs()) == spec_docker_config(entries.pairs()).take(i as int),
        decreases n - i,
    {
        let endpoint = entries.key_at(i);
        let credential = entries.value_at(i);
        let auth = encode_base64(login_text(credential).as_str());
        let entry = auth_config(credential, auth);
        proof {
            let done = auths.pairs();
            assert(auths_view(done).len() == i);
            assert forall|k: int| 0 <= k < done.len() implies (#[trigger] done[k]).0 == entries.pairs()[k].0 by {
                assert(auths_view(done)[k] == spec_docker_config(entries.pairs()).take(i as int)[k]);
            }
            lemma_next_key_is_new(entries.pairs(), done);
        }
        let ghost before = auths.pairs();
        auths.insert(endpoint.clone(), entry);
        assert(auths_view(auths.pairs()) =~= auths_view(before).push((endpoint@, entry@)));
        assert(spec_docker_config(entries.pairs()).take(i as int + 1) =~= spec_docker_config(
            entries.pairs(),
        ).take(i as int).push((endpoint@, entry@)));
        i = i + 1;
    }
    assert(spec_docker_config(entries.pairs()).take(n as int) =~= spec_docker_config(entries.pairs()));
    DockerConfig { auths: Some(auths) }
}

} // verus!
