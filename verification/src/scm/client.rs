//! How a caller asks for one page of a listing.

use vstd::prelude::*;
use crate::text::{copy_opt, opt_text};

verus! {

/// Which part of a listing is wanted.
pub struct PageOptions {
    /// The number of the page, counted from 1.
    pub page: Option<u64>,
    /// How many items a page holds.
    pub size: Option<u64>,
    /// A continuation token, for backends that hand one out.
    pub cursor: Option<String>,
}

pub struct PageOptionsView {
    pub page: Option<u64>,
    pub size: Option<u64>,
    pub cursor: Option<Seq<char>>,
}

impl View for PageOptions {
    type V = PageOptionsView;

    open spec fn view(&self) -> PageOptionsView {
        PageOptionsView { page: self.page, size: self.size, cursor: opt_text(self.cursor) }
    }
}

impl PageOptionsView {
    /// The options for the page after this one. A request without a page
    /// number is one for page 1. There is no next page where the number would
    /// not fit.
    pub open spec fn next(self) -> Option<PageOptionsView> {
        let page: u64 = match self.page {
            Some(n) => n,
            None => 1,
        };
        if page < u64::MAX {
            Some(PageOptionsView { page: Some((page + 1) as u64), size: self.size, cursor: self.cursor })
        } else {
            None
        }
    }
}

/// The options reached from `first` by asking for the next page `steps` times.
pub open spec fn spec_successive(first: PageOptionsView, steps: nat) -> Option<PageOptionsView>
    decreases steps,
{
    if steps == 0 {
        Some(first)
    } else {
        match spec_successive(first, (steps - 1) as nat) {
            Some(opts) => opts.next(),
            None => None,
        }
    }
}

/// Successive options ask for the pages 1, 2, 3 and so on, each of the same size.
pub proof fn successive_pages_count_up(size: u64, steps: nat)
    requires
        1 + steps <= u64::MAX,
    ensures
        spec_successive(PageOptionsView { page: Some(1), size: Some(size), cursor: None }, steps) == Some(
            PageOptionsView { page: Some((1 + steps) as u64), size: Some(size), cursor: None },
        ),
    decreases steps,
{
    if steps > 0 {
        successive_pages_count_up(size, (steps - 1) as nat);
    }
}

/// The view of optional page options.
pub open spec fn opt_page_options(o: Option<PageOptions>) -> Option<PageOptionsView> {
    match o {
        Some(opts) => Some(opts@),
        None => None,
    }
}

impl PageOptions {
    /// The options for the first page of `size` items.
    pub fn first(size: u64) -> (opts: PageOptions)
        ensures
            opts@ == (PageOptionsView { page: Some(1), size: Some(size), cursor: None }),
    {
        PageOptions { page: Some(1), size: Some(size), cursor: None }
    }

    /// The options for the page after this one.
    pub fn next(&self) -> (following: Option<PageOptions>)
        ensures
            opt_page_options(following) == self@.next(),
    {
        let page: u64 = match self.page {
            Some(n) => n,
            None => 1,
        };
        if page < u64::MAX {
            Some(PageOptions { page: Some(page + 1), size: self.size, cursor: copy_opt(&self.cursor) })
        } else {
            None
        }
    }
}

} // verus!
