//! Cursor-paged fetching as a state machine: the caller performs each
//! fetch it is asked for and reports the page; the pager gathers the items,
//! spaces the requests out, and stops at the page without a next cursor.
use vstd::prelude::*;
use crate::error::ServiceError;
use crate::text::same_text;

verus! {

/// The least pause between two requests for pages of one resource.
pub const MIN_PAGE_DELAY_MS: u64 = 100;

/// What the caller is to do next.
#[derive(Debug, Clone, PartialEq, Eq)]
pub enum PageStep {
    /// Wait `delay_ms`, then fetch the page at `cursor` (the first page
    /// where there is none) and report it.
    Fetch { cursor: Option<String>, delay_ms: u64 },
    /// Every page is in: take the items.
    Done,
    /// The fetch failed; the pages gathered so far are dropped.
    Failed(ServiceError),
}

/// Where a paging stands.
#[derive(Debug, Clone, Copy, PartialEq, Eq)]
pub enum PagerStatus {
    Fetching,
    Done,
    Failed,
}

/// All pages' items, in page order.
pub open spec fn flatten<T>(pages: Seq<Seq<T>>) -> Seq<T>
    decreases pages.len(),
{
    if pages.len() == 0 {
        Seq::empty()
    } else {
        flatten(pages.drop_last()) + pages.last()
    }
}

/// The sum of the pages' item counts.
pub open spec fn total_count<T>(pages: Seq<Seq<T>>) -> nat
    decreases pages.len(),
{
    if pages.len() == 0 {
        0
    } else {
        total_count(pages.drop_last()) + pages.last().len()
    }
}

/// No cursor occurs twice.
pub open spec fn distinct_cursors(c: Seq<Seq<char>>) -> bool {
    forall|i: int, j: int| 0 <= i < j < c.len() ==> c[i] != c[j]
}

/// Gathers the items of one paged resource.
pub struct Pager<T> {
    items: Vec<T>,
    cursors: Vec<String>,
    status: PagerStatus,
    pages: Ghost<Seq<Seq<T>>>,
}

impl<T> Pager<T> {
    /// The pages received so far, in order.
    pub closed spec fn pages(&self) -> Seq<Seq<T>> {
        self.pages@
    }

    /// The items gathered so far.
    pub closed spec fn items(&self) -> Seq<T> {
        self.items@
    }

    /// The next cursors requested so far, in order.
    pub closed spec fn cursors(&self) -> Seq<Seq<char>> {
        self.cursors@.map_values(|c: String| c@)
    }

    pub closed spec fn status(&self) -> PagerStatus {
        self.status
    }

    /// The items are those of the pages received; every page but the first
    /// was asked for by a cursor never used before, and one page is received
    /// per cursor, with one more once the last page is in.
    pub open spec fn wf(&self) -> bool {
        &&& distinct_cursors(self.cursors())
        &&& self.status() != PagerStatus::Failed ==> self.items() == flatten(self.pages())
        &&& self.status() == PagerStatus::Failed ==> self.items().len() == 0
        &&& self.status() == PagerStatus::Fetching ==> self.pages().len() == self.cursors().len()
        &&& self.status() == PagerStatus::Done ==> self.pages().len() == self.cursors().len() + 1
    }

    /// A paging that has fetched nothing yet.
    pub fn new() -> (r: Self)
        ensures
            r.wf(),
            r.status() == PagerStatus::Fetching,
            r.pages().len() == 0,
            r.items().len() == 0,
            r.cursors().len() == 0,
    {
        let r = Pager {
            items: Vec::new(),
            cursors: Vec::new(),
            status: PagerStatus::Fetching,
            pages: Ghost(Seq::empty()),
        };
        assert(r.cursors() =~= Seq::<Seq<char>>::empty());
        r
    }

    /// The first request: the first page, at once.
    pub fn first_step(&self) -> (r: PageStep)
        ensures
            r == (PageStep::Fetch { cursor: None, delay_ms: 0 }),
    {
        PageStep::Fetch { cursor: None, delay_ms: 0 }
    }

    fn seen(&self, cursor: &str) -> (r: bool)
        ensures
            r == self.cursors().contains(cursor@),
    {
        let mut i: usize = 0;
        while i < self.cursors.len()
            invariant
                i <= self.cursors@.len(),
                forall|j: int| 0 <= j < i ==> self.cursors@[j]@ != cursor@,
            decreases self.cursors@.len() - i,
        {
            if same_text(self.cursors[i].as_str(), cursor) {
                assert(self.cursors()[i as int] == cursor@);
                return true;
            }
            i += 1;
        }
        assert(!self.cursors().contains(cursor@)) by {
            if self.cursors().contains(cursor@) {
                let j = choose|j: int| 0 <= j < self.cursors().len() && self.cursors()[j] == cursor@;
                assert(self.cursors@[j]@ == cursor@);
            }
        }
        false
    }

    /// Reports the page just fetched: its items and its next cursor. Without
    /// a next cursor the paging is done; with one that was used before it
    /// fails rather than fetch a page twice; otherwise the page at the next
    /// cursor is asked for, after the least pause.
    pub fn on_page(&mut self, items: Vec<T>, next: Option<String>) -> (r: PageStep)
        requires
            old(self).wf(),
            old(self).status() == PagerStatus::Fetching,
        ensures
            final(self).wf(),
            match next {
                None => r == PageStep::Done && final(self).status() == PagerStatus::Done
                    && final(self).pages() == old(self).pages().push(items@)
                    && final(self).items() == old(self).items() + items@
                    && final(self).cursors() == old(self).cursors(),
                Some(c) => if old(self).cursors().contains(c@) {
                    r == PageStep::Failed(ServiceError::TransientExternalError)
                        && final(self).status() == PagerStatus::Failed
                        && final(self).items().len() == 0
                } else {
                    r == (PageStep::Fetch { cursor: Some(c), delay_ms: MIN_PAGE_DELAY_MS })
                        && final(self).status() == PagerStatus::Fetching
                        && final(self).pages() == old(self).pages().push(items@)
                        && final(self).items() == old(self).items() + items@
                        && final(self).cursors() == old(self).cursors().push(c@)
                },
            },
    {
        match next {
            None => {
                let ghost p = items@;
                let mut items = items;
                self.items.append(&mut items);
                self.pages = Ghost(self.pages@.push(p));
                self.status = PagerStatus::Done;
                assert(self.pages@.drop_last() =~= old(self).pages@);
                PageStep::Done
            },
            Some(c) => {
                if self.seen(c.as_str()) {
                    self.items = Vec::new();
                    self.status = PagerStatus::Failed;
                    PageStep::Failed(ServiceError::TransientExternalError)
                } else {
                    let ghost p = items@;
                    let mut items = items;
                    self.items.append(&mut items);
                    self.pages = Ghost(self.pages@.push(p));
                    assert(self.pages@.drop_last() =~= old(self).pages@);
                    self.cursors.push(c.clone());
                    assert(self.cursors() =~= old(self).cursors().push(c@));
                    PageStep::Fetch { cursor: Some(c), delay_ms: MIN_PAGE_DELAY_MS }
                }
            },
        }
    }

    /// Reports that the fetch failed: the paging fails, and the pages
    /// gathered so far are dropped.
    pub fn on_error(&mut self) -> (r: PageStep)
        requires
            old(self).wf(),
        ensures
            final(self).wf(),
            r == PageStep::Failed(ServiceError::TransientExternalError),
            final(self).status() == PagerStatus::Failed,
            final(self).items().len() == 0,
            final(self).cursors() == old(self).cursors(),
    {
        self.items = Vec::new();
        self.status = PagerStatus::Failed;
        PageStep::Failed(ServiceError::TransientExternalError)
    }

    /// The items gathered.
    pub fn into_items(self) -> (r: Vec<T>)
        ensures
            r@ == self.items(),
    {
        self.items
    }
}

/// As many items as the pages held together.
pub proof fn lemma_flatten_len<T>(pages: Seq<Seq<T>>)
    ensures
        flatten(pages).len() == total_count(pages),
    decreases pages.len(),
{
    if pages.len() > 0 {
        lemma_flatten_len(pages.drop_last());
    }
}

/// A finished paging returns every item of every page, as many as the pages
/// held together; it received one page per next cursor plus the last, and
/// asked for no page twice.
pub proof fn lemma_paging_complete<T>(p: Pager<T>)
    requires
        p.wf(),
        p.status() == PagerStatus::Done,
    ensures
        p.items() == flatten(p.pages()),
        p.items().len() == total_count(p.pages()),
        p.pages().len() == p.cursors().len() + 1,
        distinct_cursors(p.cursors()),
{
    lemma_flatten_len(p.pages());
}

} // verus!
