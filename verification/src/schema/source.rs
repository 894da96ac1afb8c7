//! Where the code of an actor comes from.

use vstd::prelude::*;
use crate::text::{copy_opt, opt_text, text_or_empty};
use crate::utils::map::{keys_distinct, lemma_next_key_is_new, TextMap};

verus! {

/// A place in a source repository.
#[derive(Debug, PartialEq, Eq)]
pub struct Source {
    /// The address of the repository.
    pub repo: String,
    /// The branch to follow.
    pub branch: Option<String>,
    /// The tag to take.
    pub tag: Option<String>,
    /// The commit to take.
    pub rev: Option<String>,
    /// The directory inside the repository.
    pub path: Option<String>,
}

pub struct SourceView {
    pub repo: Seq<char>,
    pub branch: Option<Seq<char>>,
    pub tag: Option<Seq<char>>,
    pub rev: Option<Seq<char>>,
    pub path: Option<Seq<char>>,
}

impl View for Source {
    type V = SourceView;

    open spec fn view(&self) -> SourceView {
        SourceView {
            repo: self.repo@,
            branch: opt_text(self.branch),
            tag: opt_text(self.tag),
            rev: opt_text(self.rev),
            path: opt_text(self.path),
        }
    }
}

impl SourceView {
    /// The source that names a repository and nothing more.
    pub open spec fn of_repo(repo: Seq<char>) -> SourceView {
        SourceView { repo, branch: None, tag: None, rev: None, path: None }
    }

    /// The commit, or the empty text where none is set.
    pub open spec fn rev_text(self) -> Seq<char> {
        match self.rev {
            Some(t) => t,
            None => Seq::empty(),
        }
    }
}

impl Clone for Source {
    fn clone(&self) -> (copy: Source)
        ensures
            copy@ == self@,
    {
        Source {
            repo: self.repo.clone(),
            branch: copy_opt(&self.branch),
            tag: copy_opt(&self.tag),
            rev: copy_opt(&self.rev),
            path: copy_opt(&self.path),
        }
    }
}

impl Source {
    /// The source that names the repository `repo` and nothing more.
    pub fn new(repo: String) -> (source: Source)
        ensures
            source@ == SourceView::of_repo(repo@),
    {
        Source { repo, branch: None, tag: None, rev: None, path: None }
    }

    /// The commit to take, or the empty string where none is set.
    pub fn rev(&self) -> (rev: String)
        ensures
            rev@ == self@.rev_text(),
    {
        text_or_empty(&self.rev)
    }
}

/// The pairs with the views of their sources.
pub open spec fn sources_view(pairs: Seq<(Seq<char>, Source)>) -> Seq<(Seq<char>, SourceView)> {
    Seq::new(pairs.len(), |i: int| (pairs[i].0, pairs[i].1@))
}

/// The view of an optional map of sources.
pub open spec fn opt_sources_view(map: Option<TextMap<Source>>) -> Option<Seq<(Seq<char>, SourceView)>> {
    match map {
        Some(m) => Some(sources_view(m.pairs())),
        None => None,
    }
}

impl Clone for TextMap<Source> {
    fn clone(&self) -> (copy: TextMap<Source>)
        ensures
            sources_view(copy.pairs()) == sources_view(self.pairs()),
    {
        let n = self.len();
        let mut copy: TextMap<Source> = TextMap::new();
        let mut i: usize = 0;
        while i < n
            invariant
                i <= n,
                n == self.pairs().len(),
                keys_distinct(self.pairs()),
                copy.pairs().len() == i,
                forall|k: int| 0 <= k < i ==> (#[trigger] copy.pairs()[k]).0 == self.pairs()[k].0,
                forall|k: int| 0 <= k < i ==> (#[trigger] copy.pairs()[k]).1@ == self.pairs()[k].1@,
            decreases n - i,
        {
            proof {
                lemma_next_key_is_new(self.pairs(), copy.pairs());
            }
            copy.insert(self.key_at(i).clone(), self.value_at(i).clone());
            i = i + 1;
        }
        assert(sources_view(copy.pairs()) =~= sources_view(self.pairs()));
        copy
    }
}

} // verus!
