//! Selecting and ordering ledger records by time.
use vstd::prelude::*;
use vstd::multiset::Multiset;
use vstd::seq_lib::{group_to_multiset_ensures, lemma_multiset_commutative};
use crate::models::{InteractionRecord, InteractionRecordView};
use crate::table::views;
use crate::text::same_text;

verus! {

broadcast use group_to_multiset_ensures;

/// Whether `r` belongs to the account (`by_user`) or to the comment named `key`.
pub open spec fn record_matches(r: InteractionRecordView, key: Seq<char>, by_user: bool) -> bool {
    if by_user {
        r.user_id@ == key
    } else {
        r.comment_id@ == key
    }
}

/// The records of `s` that [`record_matches`] keeps, in ledger order.
pub open spec fn records_where(s: Seq<InteractionRecordView>, key: Seq<char>, by_user: bool) -> Seq<
    InteractionRecordView,
>
    decreases s.len(),
{
    if s.len() == 0 {
        Seq::empty()
    } else if record_matches(s.last(), key, by_user) {
        records_where(s.drop_last(), key, by_user).push(s.last())
    } else {
        records_where(s.drop_last(), key, by_user)
    }
}

/// `a` may stand before `b`: newer or as new when `newest_first`, older or as
/// old otherwise.
pub open spec fn may_precede(a: InteractionRecordView, b: InteractionRecordView, newest_first: bool) -> bool {
    if newest_first {
        a.timestamp >= b.timestamp
    } else {
        a.timestamp <= b.timestamp
    }
}

/// The records stand in time order, newest or oldest first.
pub open spec fn in_time_order(s: Seq<InteractionRecordView>, newest_first: bool) -> bool {
    forall|i: int, j: int| 0 <= i < j < s.len() ==> may_precede(s[i], s[j], newest_first)
}

/// `r` holds the `limit` newest records of `s` (all of them where there are
/// fewer), newest first. Among records of equal time any may be taken.
pub open spec fn newest_of(r: Seq<InteractionRecordView>, s: Seq<InteractionRecordView>, limit: nat) -> bool {
    &&& r.len() == if s.len() < limit {
        s.len()
    } else {
        limit
    }
    &&& in_time_order(r, true)
    &&& r.to_multiset().subset_of(s.to_multiset())
    &&& forall|x: InteractionRecordView, k: int|
        #![trigger s.to_multiset().count(x), r[k]]
        s.to_multiset().count(x) > r.to_multiset().count(x) && 0 <= k < r.len() ==> x.timestamp
            <= r[k].timestamp
}

/// The records of `s` that [`record_matches`] keeps, in ledger order.
pub fn select_records(s: &Vec<InteractionRecord>, key: &str, by_user: bool) -> (r: Vec<
    InteractionRecord,
>)
    ensures
        views(r@) == records_where(views(s@), key@, by_user),
{
    let ghost all = views(s@);
    let mut r: Vec<InteractionRecord> = Vec::new();
    let mut i: usize = 0;
    while i < s.len()
        invariant
            i <= s@.len(),
            all == views(s@),
            views(r@) == records_where(all.subrange(0, i as int), key@, by_user),
        decreases s@.len() - i,
    {
        assert(all.subrange(0, i + 1).drop_last() =~= all.subrange(0, i as int));
        let hit = if by_user {
            same_text(s[i].user_id.as_str(), key)
        } else {
            same_text(s[i].comment_id.as_str(), key)
        };
        if hit {
            let ghost before = r@;
            let d = s[i].duplicate();
            r.push(d);
            assert(views(r@) =~= views(before).push(d@));
        }
        i += 1;
    }
    assert(all.subrange(0, all.len() as int) =~= all);
    r
}

/// `a` must stand before `b`: strictly newer when `newest_first`, strictly
/// older otherwise.
fn strictly_precedes(a: &InteractionRecord, b: &InteractionRecord, newest_first: bool) -> (r: bool)
    ensures
        r == !may_precede(b@, a@, newest_first),
{
    if newest_first {
        a.timestamp > b.timestamp
    } else {
        a.timestamp < b.timestamp
    }
}

/// The same records in time order, newest or oldest first.
pub fn sort_records(v: Vec<InteractionRecord>, newest_first: bool) -> (r: Vec<InteractionRecord>)
    ensures
        in_time_order(views(r@), newest_first),
        views(r@).to_multiset() == views(v@).to_multiset(),
{
    let ghost all = views(v@).to_multiset();
    let mut out: Vec<InteractionRecord> = Vec::new();
    let mut rest = v;
    assert(views(out@) =~= Seq::<InteractionRecordView>::empty());
    while rest.len() > 0
        invariant
            in_time_order(views(out@), newest_first),
            views(out@).to_multiset().add(views(rest@).to_multiset()) == all,
        decreases rest@.len(),
    {
        let ghost before = rest@;
        let x = rest.pop().unwrap();
        assert(before == rest@.push(x));
        assert(views(before) =~= views(rest@).push(x@));
        let mut p: usize = 0;
        while p < out.len() && !strictly_precedes(&x, &out[p], newest_first)
            invariant
                p <= out@.len(),
                forall|k: int| 0 <= k < p ==> may_precede(#[trigger] views(out@)[k], x@, newest_first),
            decreases out@.len() - p,
        {
            p += 1;
        }
        let ghost prev = views(out@);
        let ghost prev_exec = out@;
        out.insert(p, x);
        assert(out@ == prev_exec.insert(p as int, x));
        assert(views(out@) =~= prev.insert(p as int, x@));
        assert forall|i: int, j: int| 0 <= i < j < views(out@).len() implies may_precede(
            views(out@)[i],
            views(out@)[j],
            newest_first,
        ) by {
            if j == p {
            } else if i == p {
                assert(may_precede(prev[p as int], prev[j - 1], newest_first) || p as int
                    == j - 1);
            } else if i < p && j > p {
                assert(may_precede(prev[i], prev[j - 1], newest_first));
            }
        }
        assert(views(out@).to_multiset().add(views(rest@).to_multiset()) =~= all);
    }
    assert(views(rest@) =~= Seq::<InteractionRecordView>::empty());
    assert(views(rest@).to_multiset() =~= Multiset::<InteractionRecordView>::empty());
    assert(views(out@).to_multiset() =~= all);
    out
}

/// The `limit` newest of `v` (all of them where there are fewer), newest
/// first.
pub fn take_newest(v: Vec<InteractionRecord>, limit: usize) -> (r: Vec<InteractionRecord>)
    ensures
        newest_of(views(r@), views(v@), limit as nat),
{
    let mut sorted = sort_records(v, true);
    let ghost full = views(sorted@);
    let ghost vv = views(v@);
    if sorted.len() > limit {
        sorted.truncate(limit);
    }
    proof {
        let sv = views(sorted@);
        let n = sv.len() as int;
        assert(sv =~= full.subrange(0, n));
        let rest = full.subrange(n, full.len() as int);
        assert(full =~= sv + rest);
        lemma_multiset_commutative(sv, rest);
        assert(full.to_multiset() == vv.to_multiset());
        assert(full.len() == full.to_multiset().len());
        assert(vv.len() == vv.to_multiset().len());
        assert(sv.len() == if vv.len() < limit { vv.len() } else { limit as nat });
        assert(sv.to_multiset().subset_of(vv.to_multiset())) by {
            assert forall|x: InteractionRecordView| sv.to_multiset().count(x) <= vv.to_multiset().count(x) by {
                assert(vv.to_multiset().count(x) == sv.to_multiset().count(x) + rest.to_multiset().count(x));
            }
        }
        assert(in_time_order(sv, true)) by {
            assert forall|i: int, j: int| 0 <= i < j < sv.len() implies may_precede(
                sv[i],
                sv[j],
                true,
            ) by {
                assert(sv[i] == full[i] && sv[j] == full[j]);
            }
        }
        assert forall|x: InteractionRecordView, k: int|
            #![trigger vv.to_multiset().count(x), sv[k]]
            vv.to_multiset().count(x) > sv.to_multiset().count(x) && 0 <= k
                < sv.len() implies x.timestamp <= sv[k].timestamp by {
            assert(rest.to_multiset().count(x) > 0);
            assert(rest.contains(x));
            let m = choose|m: int| 0 <= m < rest.len() && rest[m] == x;
            assert(full[n + m] == x);
            assert(full[k] == sv[k]);
            assert(may_precede(full[k], full[n + m], true));
        }
    }
    sorted
}

} // verus!
