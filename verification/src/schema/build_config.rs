//! How the image of an actor is built.

use vstd::prelude::*;
use crate::text::{copy_opt, opt_text};
use crate::utils::map::{opt_texts_view, TextMap};

verus! {

/// The settings of an image build.
#[derive(Debug, PartialEq, Eq)]
pub struct Build {
    /// The path of the Dockerfile, relative to the context.
    pub dockerfile: Option<String>,
    /// The builder to use where there is no Dockerfile.
    pub builder: Option<String>,
    /// The directory that the build runs in.
    pub context: Option<String>,
    /// The environment of the build.
    pub environments: Option<TextMap<String>>,
}

pub struct BuildView {
    pub dockerfile: Option<Seq<char>>,
    pub builder: Option<Seq<char>>,
    pub context: Option<Seq<char>>,
    pub environments: Option<Seq<(Seq<char>, Seq<char>)>>,
}

impl View for Build {
    type V = BuildView;

    open spec fn view(&self) -> BuildView {
        BuildView {
            dockerfile: opt_text(self.dockerfile),
            builder: opt_text(self.builder),
            context: opt_text(self.context),
            environments: opt_texts_view(self.environments),
        }
    }
}

/// The view of an optional build.
pub open spec fn opt_build_view(build: Option<Build>) -> Option<BuildView> {
    match build {
        Some(b) => Some(b@),
        None => None,
    }
}

impl Clone for Build {
    fn clone(&self) -> (copy: Build)
        ensures
            copy@ == self@,
    {
        Build {
            dockerfile: copy_opt(&self.dockerfile),
            builder: copy_opt(&self.builder),
            context: copy_opt(&self.context),
            environments: match &self.environments {
                Some(m) => Some(m.clone()),
                None => None,
            },
        }
    }
}

} // verus!
