//! One sync of a video's comments as a state machine: the threads are paged
//! through first, then the replies of each thread that reports some, one
//! thread after another; once every page is in, the result is merged into
//! the store.
use vstd::prelude::*;
use crate::error::ServiceError;
use crate::models::{Comment, Reply};
use crate::pager::{PageStep, Pager, PagerStatus, MIN_PAGE_DELAY_MS};
use crate::store::Database;
use crate::sync::{
    apply_comment_sync, needs_reply_fetch, replies_from_items, reply_lists, reply_of, sync_effect,
    CommentItem, CommentThread,
};
use crate::table::{lookup, views};

verus! {

/// What the caller is to do next.
#[derive(Debug, Clone, PartialEq, Eq)]
pub enum SyncStep {
    /// Wait `delay_ms`, then fetch the page of threads at `cursor` and
    /// report it with [`CommentSync::on_threads_page`].
    FetchThreads { cursor: Option<String>, delay_ms: u64 },
    /// Wait `delay_ms`, then fetch the page of replies under `comment_id` at
    /// `cursor` and report it with [`CommentSync::on_replies_page`].
    FetchReplies { comment_id: String, cursor: Option<String>, delay_ms: u64 },
    /// Every page is in: merge with [`CommentSync::apply`].
    Ready,
    /// A fetch failed; nothing is merged.
    Failed(ServiceError),
}

/// Where a sync stands.
#[derive(Debug, Clone, Copy, PartialEq, Eq)]
pub enum SyncPhase {
    Threads,
    Replies,
    Ready,
    Failed,
}

/// `replies` are the replies that `items` describe under `thread`, or none
/// where the thread reports none.
pub open spec fn replies_for(thread: CommentThread, items: Seq<CommentItem>, replies: Seq<Reply>) -> bool {
    &&& thread.total_reply_count <= 0 ==> items.len() == 0
    &&& replies.len() == items.len()
    &&& forall|i: int| 0 <= i < items.len() ==> reply_of(#[trigger] replies[i], items[i], thread.id@)
}

/// Some thread of `s` has the id `id`.
pub open spec fn has_thread(s: Seq<CommentThread>, id: Seq<char>) -> bool {
    exists|i: int| 0 <= i < s.len() && s[i].id@ == id
}

/// The threads of `s` in order, each id kept at its first occurrence only:
/// a thread the platform repeats on a later page is dropped.
pub open spec fn first_copies(s: Seq<CommentThread>) -> Seq<CommentThread>
    decreases s.len(),
{
    if s.len() == 0 {
        Seq::empty()
    } else if has_thread(first_copies(s.drop_last()), s.last().id@) {
        first_copies(s.drop_last())
    } else {
        first_copies(s.drop_last()).push(s.last())
    }
}

/// No two threads share an id.
pub open spec fn distinct_threads(s: Seq<CommentThread>) -> bool {
    forall|i: int, j: int| 0 <= i < j < s.len() ==> s[i].id@ != s[j].id@
}

/// Keeping first copies leaves no two threads with one id.
pub proof fn lemma_first_copies_distinct(s: Seq<CommentThread>)
    ensures
        distinct_threads(first_copies(s)),
    decreases s.len(),
{
    if s.len() > 0 {
        lemma_first_copies_distinct(s.drop_last());
    }
}

/// Keeping first copies loses no id and adds no thread: every id of `s`
/// occurs among the kept threads, and every kept thread is one of `s`.
pub proof fn lemma_first_copies_complete(s: Seq<CommentThread>)
    ensures
        forall|i: int| 0 <= i < s.len() ==> has_thread(first_copies(s), (#[trigger] s[i]).id@),
        forall|j: int| 0 <= j < first_copies(s).len() ==> s.contains(#[trigger] first_copies(s)[j]),
    decreases s.len(),
{
    if s.len() > 0 {
        let d = s.drop_last();
        lemma_first_copies_complete(d);
        let f = first_copies(s);
        let fd = first_copies(d);
        assert forall|i: int| 0 <= i < s.len() implies has_thread(f, (#[trigger] s[i]).id@) by {
            if i < s.len() - 1 {
                assert(s[i] == d[i]);
                assert(has_thread(fd, d[i].id@));
                if !has_thread(fd, s.last().id@) {
                    let k = choose|k: int| 0 <= k < fd.len() && fd[k].id@ == d[i].id@;
                    assert(f[k] == fd[k]);
                }
            } else if !has_thread(fd, s.last().id@) {
                assert(f[fd.len() as int] == s.last());
            }
        }
        assert forall|j: int| 0 <= j < f.len() implies s.contains(#[trigger] f[j]) by {
            if j < fd.len() {
                assert(f[j] == fd[j]);
                assert(d.contains(fd[j]));
                let k = choose|k: int| 0 <= k < d.len() && d[k] == fd[j];
                assert(s[k] == d[k]);
            } else {
                assert(f[j] == s[s.len() - 1]);
            }
        }
    }
}

/// Threads with distinct ids are kept as they are.
pub proof fn lemma_first_copies_of_distinct(s: Seq<CommentThread>)
    requires
        distinct_threads(s),
    ensures
        first_copies(s) == s,
    decreases s.len(),
{
    if s.len() > 0 {
        let d = s.drop_last();
        assert(distinct_threads(d));
        lemma_first_copies_of_distinct(d);
        assert(!has_thread(d, s.last().id@)) by {
            if has_thread(d, s.last().id@) {
                let i = choose|i: int| 0 <= i < d.len() && d[i].id@ == s.last().id@;
                assert(s[i].id@ != s[s.len() - 1].id@);
            }
        }
        assert(d.push(s.last()) =~= s);
    } else {
        assert(s =~= Seq::<CommentThread>::empty());
    }
}

fn holds_thread(v: &Vec<CommentThread>, id: &str) -> (r: bool)
    ensures
        r == has_thread(v@, id@),
{
    let mut i: usize = 0;
    while i < v.len()
        invariant
            i <= v@.len(),
            forall|j: int| 0 <= j < i ==> v@[j].id@ != id@,
        decreases v@.len() - i,
    {
        if crate::text::same_text(v[i].id.as_str(), id) {
            return true;
        }
        i += 1;
    }
    false
}

/// The threads of `v`, each id kept at its first occurrence only.
pub fn keep_first_copies(v: Vec<CommentThread>) -> (r: Vec<CommentThread>)
    ensures
        r@ == first_copies(v@),
{
    let ghost all = v@;
    let mut rest = v;
    let mut r: Vec<CommentThread> = Vec::new();
    assert(all.subrange(0, 0) =~= Seq::<CommentThread>::empty());
    while rest.len() > 0
        invariant
            rest@.len() <= all.len(),
            rest@ == all.subrange(all.len() - rest@.len(), all.len() as int),
            r@ == first_copies(all.subrange(0, all.len() - rest@.len())),
        decreases rest@.len(),
    {
        let ghost n: int = all.len() - rest@.len();
        let t = rest.remove(0);
        assert(t == all[n]);
        assert(all.subrange(0, n + 1).drop_last() =~= all.subrange(0, n));
        if !holds_thread(&r, t.id.as_str()) {
            r.push(t);
        }
        assert(rest@ =~= all.subrange(n + 1, all.len() as int));
    }
    assert(all.subrange(0, all.len() as int) =~= all);
    r
}

/// Where `s` stands after moving on from thread `from`, whose reply items
/// so far are `items`: the threads from `from` up to the current one report
/// no replies and got none; then either the current thread reports replies
/// and its first page is asked for at once, or every thread is settled.
pub open spec fn advanced(from: nat, items: Seq<Seq<CommentItem>>, s: CommentSync, r: SyncStep) -> bool {
    &&& s.replies().len() >= from
    &&& items.len() == from
    &&& s.reply_items().subrange(0, from as int) == items
    &&& forall|j: int|
        from <= j < s.replies().len() ==> (#[trigger] s.threads()[j]).total_reply_count <= 0
            && s.replies()[j].len() == 0
    &&& match r {
        SyncStep::FetchReplies { comment_id, cursor, delay_ms } => {
            &&& s.phase() == SyncPhase::Replies
            &&& comment_id == s.threads()[s.replies().len() as int].id
            &&& s.threads()[s.replies().len() as int].total_reply_count > 0
            &&& s.reply_pager().items().len() == 0
            &&& s.reply_pager().cursors().len() == 0
            &&& cursor is None
            &&& delay_ms == 0
        },
        SyncStep::Ready => s.phase() == SyncPhase::Ready && s.replies().len() == s.threads().len(),
        _ => false,
    }
}

/// The state of one sync.
pub struct CommentSync {
    phase: SyncPhase,
    thread_pager: Pager<CommentThread>,
    threads: Vec<CommentThread>,
    replies: Vec<Vec<Reply>>,
    reply_pager: Pager<CommentItem>,
    reply_items: Ghost<Seq<Seq<CommentItem>>>,
}

impl CommentSync {
    pub closed spec fn phase(&self) -> SyncPhase {
        self.phase
    }

    /// The threads, once they are all in.
    pub closed spec fn threads(&self) -> Seq<CommentThread> {
        self.threads@
    }

    /// The replies gathered so far, one list per thread in order.
    pub closed spec fn replies(&self) -> Seq<Seq<Reply>> {
        reply_lists(self.replies@)
    }

    /// The reply pages' items gathered so far, one list per thread.
    pub closed spec fn reply_items(&self) -> Seq<Seq<CommentItem>> {
        self.reply_items@
    }

    /// The threads gathered so far while they are being paged through.
    pub closed spec fn thread_pager(&self) -> Pager<CommentThread> {
        self.thread_pager
    }

    /// The replies of the thread being paged through.
    pub closed spec fn reply_pager(&self) -> Pager<CommentItem> {
        self.reply_pager
    }

    /// Every thread before the current one has its replies.
    pub open spec fn wf_core(&self) -> bool {
        &&& self.thread_pager().wf()
        &&& self.reply_pager().wf()
        &&& self.replies().len() == self.reply_items().len()
        &&& self.replies().len() <= self.threads().len()
        &&& distinct_threads(self.threads())
        &&& forall|j: int|
            0 <= j < self.replies().len() ==> replies_for(
                #[trigger] self.threads()[j],
                self.reply_items()[j],
                self.replies()[j],
            )
    }

    /// [`CommentSync::wf_core`], and: while threads are paged, none is
    /// settled; while replies are paged, the current thread reports some;
    /// when ready, every thread has its replies.
    pub open spec fn wf(&self) -> bool {
        &&& self.wf_core()
        &&& self.phase() == SyncPhase::Threads ==> {
            &&& self.thread_pager().status() == PagerStatus::Fetching
            &&& self.threads().len() == 0
            &&& self.reply_pager().status() == PagerStatus::Fetching
            &&& self.reply_pager().items().len() == 0
            &&& self.reply_pager().cursors().len() == 0
            &&& self.replies().len() == 0
        }
        &&& self.phase() == SyncPhase::Replies ==> {
            &&& self.replies().len() < self.threads().len()
            &&& self.threads()[self.replies().len() as int].total_reply_count > 0
            &&& self.reply_pager().status() == PagerStatus::Fetching
        }
        &&& self.phase() == SyncPhase::Ready ==> self.replies().len() == self.threads().len()
    }

    /// A sync that has fetched nothing yet.
    pub fn new() -> (r: Self)
        ensures
            r.wf(),
            r.phase() == SyncPhase::Threads,
            r.thread_pager().items().len() == 0,
            r.thread_pager().cursors().len() == 0,
            r.threads().len() == 0,
            r.replies().len() == 0,
    {
        let r = CommentSync {
            phase: SyncPhase::Threads,
            thread_pager: Pager::new(),
            threads: Vec::new(),
            replies: Vec::new(),
            reply_pager: Pager::new(),
            reply_items: Ghost(Seq::empty()),
        };
        assert(r.replies() =~= Seq::<Seq<Reply>>::empty());
        r
    }

    /// The first request: the first page of threads, at once.
    pub fn first_step(&self) -> (r: SyncStep)
        ensures
            r == (SyncStep::FetchThreads { cursor: None, delay_ms: 0 }),
    {
        SyncStep::FetchThreads { cursor: None, delay_ms: 0 }
    }

    /// Moves on past the threads without replies to the next one that has
    /// some, and asks for its first page; ready where none is left.
    fn advance(&mut self) -> (r: SyncStep)
        requires
            old(self).wf_core(),
            old(self).reply_pager().status() == PagerStatus::Fetching,
            old(self).reply_pager().items().len() == 0,
            old(self).reply_pager().cursors().len() == 0,
        ensures
            final(self).wf(),
            final(self).threads() == old(self).threads(),
            final(self).thread_pager() == old(self).thread_pager(),
            final(self).reply_pager() == old(self).reply_pager(),
            advanced(old(self).replies().len(), old(self).reply_items(), *final(self), r),
    {
        let ghost start = self.replies();
        let ghost start_items = self.reply_items();
        while self.replies.len() < self.threads.len() && !needs_reply_fetch(&self.threads[self.replies.len()])
            invariant
                self.wf_core(),
                self.threads() == old(self).threads(),
                self.reply_pager() == old(self).reply_pager(),
                self.thread_pager() == old(self).thread_pager(),
                self.replies().len() >= start.len(),
                self.replies().subrange(0, start.len() as int) == start,
                self.reply_items().subrange(0, start.len() as int) == start_items,
                start == old(self).replies(),
                start_items == old(self).reply_items(),
                forall|j: int|
                    start.len() <= j < self.replies().len() ==> (#[trigger] self.threads()[j]).total_reply_count <= 0,
            decreases self.threads@.len() - self.replies@.len(),
        {
            let ghost before = self.replies();
            let ghost before_items = self.reply_items();
            let ghost j = self.replies@.len() as int;
            self.replies.push(Vec::new());
            self.reply_items = Ghost(self.reply_items@.push(Seq::empty()));
            assert(self.replies() =~= before.push(Seq::empty()));
            assert(self.replies().subrange(0, start.len() as int) =~= start) by {
                assert(before.subrange(0, start.len() as int) == start);
            }
            assert(self.reply_items().subrange(0, start.len() as int) =~= start_items) by {
                assert(before_items.subrange(0, start.len() as int) == start_items);
            }
            assert forall|k: int| 0 <= k < self.replies().len() implies replies_for(
                #[trigger] self.threads()[k],
                self.reply_items()[k],
                self.replies()[k],
            ) by {
                if k < j {
                    assert(self.replies()[k] == before[k]);
                }
            }
        }
        if self.replies.len() < self.threads.len() {
            self.phase = SyncPhase::Replies;
            SyncStep::FetchReplies {
                comment_id: self.threads[self.replies.len()].id.clone(),
                cursor: None,
                delay_ms: 0,
            }
        } else {
            self.phase = SyncPhase::Ready;
            SyncStep::Ready
        }
    }

    /// Reports a page of threads and its next cursor. With a new next
    /// cursor, that page is asked for after the least pause; with one used
    /// before, the sync fails; without one, the threads are settled (each
    /// id at its first occurrence) and the replies of the first thread that
    /// reports some are asked for, or the sync is ready.
    pub fn on_threads_page(&mut self, items: Vec<CommentThread>, next: Option<String>) -> (r: SyncStep)
        requires
            old(self).wf(),
            old(self).phase() == SyncPhase::Threads,
        ensures
            final(self).wf(),
            match next {
                Some(c) => if old(self).thread_pager().cursors().contains(c@) {
                    r == SyncStep::Failed(ServiceError::TransientExternalError)
                        && final(self).phase() == SyncPhase::Failed
                } else {
                    &&& r == (SyncStep::FetchThreads { cursor: Some(c), delay_ms: MIN_PAGE_DELAY_MS })
                    &&& final(self).phase() == SyncPhase::Threads
                    &&& final(self).thread_pager().items() == old(self).thread_pager().items() + items@
                    &&& final(self).thread_pager().cursors() == old(self).thread_pager().cursors().push(c@)
                },
                None => {
                    &&& final(self).threads() == first_copies(old(self).thread_pager().items() + items@)
                    &&& advanced(0, Seq::empty(), *final(self), r)
                },
            },
    {
        let ghost got = items@;
        match self.thread_pager.on_page(items, next) {
            PageStep::Fetch { cursor, delay_ms } => SyncStep::FetchThreads { cursor, delay_ms },
            PageStep::Failed(e) => {
                self.phase = SyncPhase::Failed;
                SyncStep::Failed(e)
            },
            PageStep::Done => {
                let mut done: Pager<CommentThread> = Pager::new();
                core::mem::swap(&mut done, &mut self.thread_pager);
                self.threads = keep_first_copies(done.into_items());
                proof {
                    lemma_first_copies_distinct(old(self).thread_pager().items() + got);
                    assert(self.reply_items() =~= Seq::<Seq<CommentItem>>::empty());
                }
                self.advance()
            },
        }
    }

    /// Reports a page of replies of the current thread and its next cursor.
    /// With a new next cursor, that page is asked for after the least pause;
    /// with one used before, the sync fails; without one, the thread's
    /// replies are settled from every page's items, and the next thread that
    /// reports replies is asked for, or the sync is ready.
    pub fn on_replies_page(&mut self, items: Vec<CommentItem>, next: Option<String>) -> (r: SyncStep)
        requires
            old(self).wf(),
            old(self).phase() == SyncPhase::Replies,
        ensures
            final(self).wf(),
            final(self).threads() == old(self).threads(),
            match next {
                Some(c) => if old(self).reply_pager().cursors().contains(c@) {
                    r == SyncStep::Failed(ServiceError::TransientExternalError)
                        && final(self).phase() == SyncPhase::Failed
                } else {
                    &&& r == (SyncStep::FetchReplies {
                        comment_id: old(self).threads()[old(self).replies().len() as int].id,
                        cursor: Some(c),
                        delay_ms: MIN_PAGE_DELAY_MS,
                    })
                    &&& final(self).phase() == SyncPhase::Replies
                    &&& final(self).replies() == old(self).replies()
                    &&& final(self).reply_items() == old(self).reply_items()
                    &&& final(self).reply_pager().items() == old(self).reply_pager().items() + items@
                    &&& final(self).reply_pager().cursors() == old(self).reply_pager().cursors().push(c@)
                },
                None => {
                    &&& final(self).reply_items().len() > old(self).replies().len()
                    &&& final(self).reply_items()[old(self).replies().len() as int]
                        == old(self).reply_pager().items() + items@
                    &&& advanced(
                        old(self).replies().len() + 1,
                        old(self).reply_items().push(old(self).reply_pager().items() + items@),
                        *final(self),
                        r,
                    )
                },
            },
    {
        let j = self.replies.len();
        let ghost got = items@;
        match self.reply_pager.on_page(items, next) {
            PageStep::Fetch { cursor, delay_ms } => SyncStep::FetchReplies {
                comment_id: self.threads[j].id.clone(),
                cursor,
                delay_ms,
            },
            PageStep::Failed(e) => {
                self.phase = SyncPhase::Failed;
                SyncStep::Failed(e)
            },
            PageStep::Done => {
                let mut done: Pager<CommentItem> = Pager::new();
                core::mem::swap(&mut done, &mut self.reply_pager);
                let gathered = done.into_items();
                let ghost g = gathered@;
                let ghost before = self.replies();
                let r = replies_from_items(gathered, self.threads[j].id.as_str());
                self.replies.push(r);
                self.reply_items = Ghost(self.reply_items@.push(g));
                assert(self.replies() =~= before.push(r@));
                assert forall|k: int| 0 <= k < self.replies().len() implies replies_for(
                    #[trigger] self.threads()[k],
                    self.reply_items()[k],
                    self.replies()[k],
                ) by {
                    if k < j {
                        assert(self.replies()[k] == before[k]);
                    }
                }
                self.advance()
            },
        }
    }

    /// Reports that the last fetch failed: the sync fails.
    pub fn on_error(&mut self) -> (r: SyncStep)
        requires
            old(self).wf(),
        ensures
            final(self).wf(),
            final(self).phase() == SyncPhase::Failed,
            r == SyncStep::Failed(ServiceError::TransientExternalError),
    {
        self.phase = SyncPhase::Failed;
        SyncStep::Failed(ServiceError::TransientExternalError)
    }

    /// Merges the finished sync into the store, as [`apply_comment_sync`]
    /// does with the threads and their replies.
    pub fn apply(self, db: &mut Database, user_id: &str, video_id: &str, now: i64) -> (r: Vec<Comment>)
        requires
            self.wf(),
            self.phase() == SyncPhase::Ready,
            old(db).wf(),
        ensures
            final(db).wf(),
            sync_effect(old(db)@, final(db)@, user_id@, video_id@, self.threads(), self.replies(), now, views(r@)),
            forall|j: int| 0 <= j < self.threads().len() ==> replies_for(
                #[trigger] self.threads()[j],
                self.reply_items()[j],
                self.replies()[j],
            ),
            forall|i: int|
                0 <= i < r@.len() ==> lookup::<Comment>(final(db)@.comments, (#[trigger] r@[i]).comment_id@)
                    == Some(r@[i]@),
    {
        let ghost t = self.threads();
        let ghost rp = self.replies();
        assert(reply_lists(self.replies@) == rp);
        let ghost before = db@;
        let r = apply_comment_sync(db, user_id, video_id, self.threads, self.replies, now);
        proof {
            crate::sync::lemma_sync_stores_returned(before, db@, user_id@, video_id@, t, rp, now, views(r@));
            assert forall|i: int| 0 <= i < r@.len() implies lookup::<Comment>(db@.comments, (#[trigger] r@[i]).comment_id@) == Some(r@[i]@) by {
                assert(views(r@)[i] == r@[i]@);
            }
        }
        r
    }
}

} // verus!
