//! Putting the pages of one listing together.

use vstd::prelude::*;
use crate::scm::git::{names_distinct, refs_view, Reference, ReferenceView};
use crate::text::same_text;

verus! {

/// Whether one of `refs` is called `name`.
pub open spec fn names_contain(refs: Seq<ReferenceView>, name: Seq<char>) -> bool {
    exists|i: int| 0 <= i < refs.len() && (#[trigger] refs[i]).name == name
}

/// `seen`, followed by those references of `page` whose name did not occur
/// before them, in order. A backend whose refs change between two requests
/// may serve one ref on two pages; the first sighting is kept.
pub open spec fn spec_append_page(seen: Seq<ReferenceView>, page: Seq<ReferenceView>) -> Seq<ReferenceView>
    decreases page.len(),
{
    if page.len() == 0 {
        seen
    } else if names_contain(seen, page[0].name) {
        spec_append_page(seen, page.drop_first())
    } else {
        spec_append_page(seen.push(page[0]), page.drop_first())
    }
}

/// The pages put together in order, starting from nothing.
pub open spec fn spec_gather(pages: Seq<Seq<ReferenceView>>) -> Seq<ReferenceView>
    decreases pages.len(),
{
    if pages.len() == 0 {
        Seq::empty()
    } else {
        spec_append_page(spec_gather(pages.drop_last()), pages.last())
    }
}

/// The views of a run of pages.
pub open spec fn pages_view(pages: Seq<Vec<Reference>>) -> Seq<Seq<ReferenceView>> {
    Seq::new(pages.len(), |i: int| refs_view(pages[i]@))
}

/// Appending a page to references with distinct names leaves the names distinct.
pub proof fn append_page_keeps_names_distinct(seen: Seq<ReferenceView>, page: Seq<ReferenceView>)
    requires
        names_distinct(seen),
    ensures
        names_distinct(spec_append_page(seen, page)),
    decreases page.len(),
{
    if page.len() > 0 {
        if names_contain(seen, page[0].name) {
            append_page_keeps_names_distinct(seen, page.drop_first());
        } else {
            let next = seen.push(page[0]);
            assert forall|i: int, j: int| 0 <= i < j < next.len() implies next[i].name != next[j].name by {
                if j == seen.len() {
                    assert(seen[i].name != page[0].name);
                }
            }
            append_page_keeps_names_distinct(next, page.drop_first());
        }
    }
}

/// Where no name of the page occurred before, and none occurs twice in it,
/// appending the page is plain concatenation: nothing is dropped.
pub proof fn append_page_of_new_names_is_concatenation(seen: Seq<ReferenceView>, page: Seq<ReferenceView>)
    requires
        names_distinct(seen + page),
    ensures
        spec_append_page(seen, page) == seen + page,
    decreases page.len(),
{
    if page.len() == 0 {
        assert(seen + page =~= seen);
    } else {
        let whole = seen + page;
        if names_contain(seen, page[0].name) {
            let i = choose|i: int| 0 <= i < seen.len() && (#[trigger] seen[i]).name == page[0].name;
            assert(whole[i].name == whole[seen.len() as int].name);
            assert(false);
        }
        let next = seen.push(page[0]);
        assert(next + page.drop_first() =~= whole);
        append_page_of_new_names_is_concatenation(next, page.drop_first());
    }
}

/// However many pages are put together, and whatever they hold, no name
/// occurs twice in the result.
pub proof fn gathered_names_are_distinct(pages: Seq<Seq<ReferenceView>>)
    ensures
        names_distinct(spec_gather(pages)),
    decreases pages.len(),
{
    if pages.len() > 0 {
        gathered_names_are_distinct(pages.drop_last());
        append_page_keeps_names_distinct(spec_gather(pages.drop_last()), pages.last());
    }
}

/// Where page `page` of `size` items begins in a listing of `len` items:
/// behind the pages before it, or at the end where the listing is shorter.
pub open spec fn page_start(len: nat, page: nat, size: nat) -> int {
    if (page - 1) * size <= len {
        (page - 1) * size
    } else {
        len as int
    }
}

/// Where page `page` of `size` items ends in a listing of `len` items.
pub open spec fn page_end(len: nat, page: nat, size: nat) -> int {
    if page * size <= len {
        (page * size) as int
    } else {
        len as int
    }
}

/// What a backend that holds the listing `all` serves as page `page`, counted
/// from 1, of `size` items.
pub open spec fn spec_page(all: Seq<ReferenceView>, page: nat, size: nat) -> Seq<ReferenceView>
    recommends
        page >= 1,
{
    all.subrange(page_start(all.len(), page, size), page_end(all.len(), page, size))
}

/// The pages one behind the other, nothing dropped.
pub open spec fn spec_concat(pages: Seq<Seq<ReferenceView>>) -> Seq<ReferenceView>
    decreases pages.len(),
{
    if pages.len() == 0 {
        Seq::empty()
    } else {
        spec_concat(pages.drop_last()) + pages.last()
    }
}

/// Whether `pages` are the pages 1, 2, 3 and so on, of `size` items each, of
/// the one listing `all`: what a backend serves whose refs do not change
/// while the pages are fetched.
pub open spec fn pages_of(all: Seq<ReferenceView>, pages: Seq<Seq<ReferenceView>>, size: nat) -> bool {
    forall|i: int| 0 <= i < pages.len() ==> #[trigger] pages[i] == spec_page(all, (i + 1) as nat, size)
}

/// The pages of a listing, fetched in turn from a backend whose refs do not
/// change, make up the start of that listing when put one behind the other.
/// So where the listing has no name twice, neither has the concatenation, and
/// `gather` returns exactly the concatenation.
pub proof fn pages_of_one_listing_concatenate_without_duplicates(
    all: Seq<ReferenceView>,
    pages: Seq<Seq<ReferenceView>>,
    size: nat,
)
    requires
        names_distinct(all),
        pages_of(all, pages, size),
    ensures
        spec_concat(pages) == all.take(page_end(all.len(), pages.len(), size)),
        names_distinct(spec_concat(pages)),
        spec_gather(pages) == spec_concat(pages),
    decreases pages.len(),
{
    let n = pages.len();
    if n == 0 {
        assert(page_end(all.len(), 0, size) == 0) by (nonlinear_arith);
        assert(all.take(0) =~= Seq::<ReferenceView>::empty());
    } else {
        let before = pages.drop_last();
        assert(pages_of(all, before, size)) by {
            assert forall|i: int| 0 <= i < before.len() implies #[trigger] before[i] == spec_page(
                all,
                (i + 1) as nat,
                size,
            ) by {
                assert(before[i] == pages[i]);
            }
        }
        pages_of_one_listing_concatenate_without_duplicates(all, before, size);
        let start = page_start(all.len(), n, size);
        let end = page_end(all.len(), n, size);
        assert(pages.last() == spec_page(all, n, size)) by {
            assert(pages[n - 1] == spec_page(all, ((n - 1) + 1) as nat, size));
        }
        assert(before.len() == n - 1);
        assert(page_end(all.len(), (n - 1) as nat, size) == start);
        assert(0 <= start <= end <= all.len()) by (nonlinear_arith)
            requires
                n >= 1,
                start == (if (n - 1) * size <= all.len() {
                    (n - 1) * size
                } else {
                    all.len() as int
                }),
                end == (if n * size <= all.len() {
                    (n * size) as int
                } else {
                    all.len() as int
                }),
        ;
        assert(all.take(start) + all.subrange(start, end) =~= all.take(end));
        let whole = spec_concat(pages);
        assert(whole == all.take(end));
        assert forall|i: int, j: int| 0 <= i < j < whole.len() implies whole[i].name != whole[j].name by {
            assert(whole[i] == all[i] && whole[j] == all[j]);
        }
        append_page_of_new_names_is_concatenation(spec_gather(before), pages.last());
    }
}

/// Whether one of `refs` is called `name`.
pub fn contains_name(refs: &Vec<Reference>, name: &str) -> (found: bool)
    ensures
        found == names_contain(refs_view(refs@), name@),
{
    let mut i: usize = 0;
    while i < refs.len()
        invariant
            i <= refs.len(),
            forall|k: int| 0 <= k < i ==> (#[trigger] refs_view(refs@)[k]).name != name@,
        decreases refs.len() - i,
    {
        if same_text(refs[i].name.as_str(), name) {
            assert(refs_view(refs@)[i as int].name == name@);
            return true;
        }
        i = i + 1;
    }
    false
}

/// Appends to `seen` the references of `page` whose names are new.
pub fn append_page(seen: &mut Vec<Reference>, page: &Vec<Reference>)
    ensures
        refs_view(final(seen)@) == spec_append_page(refs_view(old(seen)@), refs_view(page@)),
        names_distinct(refs_view(old(seen)@)) ==> names_distinct(refs_view(final(seen)@)),
{
    let ghost before = refs_view(seen@);
    let ghost whole = refs_view(page@);
    let mut i: usize = 0;
    assert(whole.skip(0) =~= whole);
    while i < page.len()
        invariant
            i <= page.len(),
            whole == refs_view(page@),
            spec_append_page(before, whole) == spec_append_page(refs_view(seen@), whole.skip(i as int)),
        decreases page.len() - i,
    {
        let ghost rest = whole.skip(i as int);
        assert(rest[0] == page@[i as int]@);
        assert(rest.drop_first() =~= whole.skip(i as int + 1));
        if !contains_name(seen, page[i].name.as_str()) {
            let ghost earlier = refs_view(seen@);
            seen.push(page[i].clone());
            assert(refs_view(seen@) =~= earlier.push(rest[0]));
        }
        i = i + 1;
    }
    proof {
        if names_distinct(before) {
            append_page_keeps_names_distinct(before, whole);
        }
    }
}

/// Puts the pages of one listing together, in the order they were fetched.
pub fn gather(pages: &Vec<Vec<Reference>>) -> (refs: Vec<Reference>)
    ensures
        refs_view(refs@) == spec_gather(pages_view(pages@)),
        names_distinct(refs_view(refs@)),
{
    let ghost all = pages_view(pages@);
    let mut refs: Vec<Reference> = Vec::new();
    let mut i: usize = 0;
    assert(refs_view(refs@) =~= spec_gather(all.take(0)));
    while i < pages.len()
        invariant
            i <= pages.len(),
            all == pages_view(pages@),
            refs_view(refs@) == spec_gather(all.take(i as int)),
        decreases pages.len() - i,
    {
        let ghost upto = all.take(i as int + 1);
        assert(upto.drop_last() =~= all.take(i as int));
        assert(upto.last() == refs_view(pages@[i as int]@));
        append_page(&mut refs, &pages[i]);
        i = i + 1;
    }
    assert(all.take(pages.len() as int) =~= all);
    proof {
        gathered_names_are_distinct(all);
    }
    refs
}

} // verus!
