//! Rows kept in insertion order and found by a text key, no two rows with
//! the same key.
use vstd::prelude::*;
use crate::text::same_text;

verus! {

/// A row with a text key.
pub trait Row: View + Sized {
    /// The key of a row's view.
    spec fn key_of(v: Self::V) -> Seq<char>;

    fn key(&self) -> (r: &str)
        ensures
            r@ == Self::key_of(self@),
    ;
}

/// The views of a sequence of rows.
pub open spec fn views<T: View>(s: Seq<T>) -> Seq<T::V> {
    s.map_values(|r: T| r@)
}

/// No two rows share a key.
pub open spec fn keys_unique<T: Row>(s: Seq<T::V>) -> bool {
    forall|i: int, j: int| 0 <= i < j < s.len() ==> T::key_of(s[i]) != T::key_of(s[j])
}

/// Some row has key `k`.
pub open spec fn holds_key<T: Row>(s: Seq<T::V>, k: Seq<char>) -> bool {
    exists|i: int| 0 <= i < s.len() && T::key_of(s[i]) == k
}

/// The position of the row with key `k`, where there is one.
pub open spec fn row_index<T: Row>(s: Seq<T::V>, k: Seq<char>) -> int {
    choose|i: int| 0 <= i < s.len() && T::key_of(s[i]) == k
}

/// The row with key `k`, if any.
pub open spec fn lookup<T: Row>(s: Seq<T::V>, k: Seq<char>) -> Option<T::V> {
    if holds_key::<T>(s, k) {
        Some(s[row_index::<T>(s, k)])
    } else {
        None
    }
}

/// `v` stored: it replaces the row with its key, or else comes last.
pub open spec fn upserted<T: Row>(s: Seq<T::V>, v: T::V) -> Seq<T::V> {
    if holds_key::<T>(s, T::key_of(v)) {
        s.update(row_index::<T>(s, T::key_of(v)), v)
    } else {
        s.push(v)
    }
}

/// Each of `vs` stored in turn.
pub open spec fn upserted_all<T: Row>(s: Seq<T::V>, vs: Seq<T::V>) -> Seq<T::V>
    decreases vs.len(),
{
    if vs.len() == 0 {
        s
    } else {
        upserted::<T>(upserted_all::<T>(s, vs.drop_last()), vs.last())
    }
}

/// The last of `vs` with key `k`, if any.
pub open spec fn last_with_key<T: Row>(vs: Seq<T::V>, k: Seq<char>) -> Option<T::V>
    decreases vs.len(),
{
    if vs.len() == 0 {
        None
    } else if T::key_of(vs.last()) == k {
        Some(vs.last())
    } else {
        last_with_key::<T>(vs.drop_last(), k)
    }
}

/// In a sequence with unique keys, the row at `i` is the one `row_index` names.
pub proof fn lemma_row_index_unique<T: Row>(s: Seq<T::V>, i: int)
    requires
        keys_unique::<T>(s),
        0 <= i < s.len(),
    ensures
        holds_key::<T>(s, T::key_of(s[i])),
        row_index::<T>(s, T::key_of(s[i])) == i,
{
    let k = T::key_of(s[i]);
    assert(holds_key::<T>(s, k));
    let j = row_index::<T>(s, k);
    if j != i {
        if j < i {
            assert(T::key_of(s[j]) != T::key_of(s[i]));
        } else {
            assert(T::key_of(s[i]) != T::key_of(s[j]));
        }
    }
}

/// Storing a row keeps the keys unique.
pub proof fn lemma_upserted_unique<T: Row>(s: Seq<T::V>, v: T::V)
    requires
        keys_unique::<T>(s),
    ensures
        keys_unique::<T>(upserted::<T>(s, v)),
        holds_key::<T>(upserted::<T>(s, v), T::key_of(v)),
{
    let k = T::key_of(v);
    let u = upserted::<T>(s, v);
    if holds_key::<T>(s, k) {
        let p = row_index::<T>(s, k);
        assert forall|i: int, j: int| 0 <= i < j < u.len() implies T::key_of(u[i]) != T::key_of(u[j]) by {
            if i == p {
                assert(T::key_of(s[j]) != T::key_of(s[p]));
            } else if j == p {
                assert(T::key_of(s[i]) != T::key_of(s[p]));
            }
        }
        assert(T::key_of(u[p]) == k);
    } else {
        assert forall|i: int, j: int| 0 <= i < j < u.len() implies T::key_of(u[i]) != T::key_of(u[j]) by {
            if j == s.len() {
                assert(T::key_of(s[i]) != k);
            }
        }
        assert(T::key_of(u[s.len() as int]) == k);
    }
}

/// After storing `v`, the row with key `k` is `v` where the keys agree, and
/// what it was before otherwise.
pub proof fn lemma_lookup_upserted<T: Row>(s: Seq<T::V>, v: T::V, k: Seq<char>)
    requires
        keys_unique::<T>(s),
    ensures
        lookup::<T>(upserted::<T>(s, v), k) == if T::key_of(v) == k {
            Some(v)
        } else {
            lookup::<T>(s, k)
        },
{
    let u = upserted::<T>(s, v);
    lemma_upserted_unique::<T>(s, v);
    let p = if holds_key::<T>(s, T::key_of(v)) {
        row_index::<T>(s, T::key_of(v))
    } else {
        s.len() as int
    };
    assert(u[p] == v);
    if T::key_of(v) == k {
        lemma_row_index_unique::<T>(u, p);
    } else if holds_key::<T>(s, k) {
        let q = row_index::<T>(s, k);
        assert(q != p);
        assert(u[q] == s[q]);
        lemma_row_index_unique::<T>(u, q);
    } else {
        assert(!holds_key::<T>(u, k)) by {
            if holds_key::<T>(u, k) {
                let i = choose|i: int| 0 <= i < u.len() && T::key_of(u[i]) == k;
                assert(i != p);
                assert(u[i] == s[i]);
            }
        }
    }
}

/// After storing each of `vs` in turn, the row with key `k` is the last of
/// `vs` with that key, or what it was before where none has it.
pub proof fn lemma_lookup_upserted_all<T: Row>(s: Seq<T::V>, vs: Seq<T::V>, k: Seq<char>)
    requires
        keys_unique::<T>(s),
    ensures
        keys_unique::<T>(upserted_all::<T>(s, vs)),
        lookup::<T>(upserted_all::<T>(s, vs), k) == match last_with_key::<T>(vs, k) {
            Some(v) => Some(v),
            None => lookup::<T>(s, k),
        },
    decreases vs.len(),
{
    if vs.len() > 0 {
        lemma_lookup_upserted_all::<T>(s, vs.drop_last(), k);
        lemma_upserted_unique::<T>(upserted_all::<T>(s, vs.drop_last()), vs.last());
        lemma_lookup_upserted::<T>(upserted_all::<T>(s, vs.drop_last()), vs.last(), k);
    }
}

/// After removing the row with key `k0`, no row has that key and every
/// other key finds what it found before.
pub proof fn lemma_lookup_removed<T: Row>(s: Seq<T::V>, k0: Seq<char>, k: Seq<char>)
    requires
        keys_unique::<T>(s),
        holds_key::<T>(s, k0),
    ensures
        keys_unique::<T>(s.remove(row_index::<T>(s, k0))),
        !holds_key::<T>(s.remove(row_index::<T>(s, k0)), k0),
        k != k0 ==> lookup::<T>(s.remove(row_index::<T>(s, k0)), k) == lookup::<T>(s, k),
{
    let p = row_index::<T>(s, k0);
    let u = s.remove(p);
    assert forall|a: int, b: int| 0 <= a < b < u.len() implies T::key_of(u[a]) != T::key_of(u[b]) by {
        if a < p && b >= p {
            assert(T::key_of(s[a]) != T::key_of(s[b + 1]));
        } else if a >= p {
            assert(T::key_of(s[a + 1]) != T::key_of(s[b + 1]));
        } else {
            assert(T::key_of(s[a]) != T::key_of(s[b]));
        }
    }
    if holds_key::<T>(u, k0) {
        let i = choose|i: int| 0 <= i < u.len() && T::key_of(u[i]) == k0;
        if i < p {
            assert(T::key_of(s[i]) != T::key_of(s[p]));
        } else {
            assert(T::key_of(s[p]) != T::key_of(s[i + 1]));
        }
    }
    if k != k0 {
        if holds_key::<T>(s, k) {
            let q = row_index::<T>(s, k);
            let q2 = if q < p { q } else { q - 1 };
            assert(q != p);
            assert(u[q2] == s[q]);
            lemma_row_index_unique::<T>(u, q2);
        } else {
            if holds_key::<T>(u, k) {
                let i = choose|i: int| 0 <= i < u.len() && T::key_of(u[i]) == k;
                if i < p {
                    assert(u[i] == s[i]);
                } else {
                    assert(u[i] == s[i + 1]);
                }
            }
        }
    }
}

/// Where no two of `vs` share a key, the last of `vs` with the key of
/// `vs[i]` is `vs[i]` itself.
pub proof fn lemma_last_with_key_unique<T: Row>(vs: Seq<T::V>, i: int)
    requires
        keys_unique::<T>(vs),
        0 <= i < vs.len(),
    ensures
        last_with_key::<T>(vs, T::key_of(vs[i])) == Some(vs[i]),
    decreases vs.len(),
{
    if i < vs.len() - 1 {
        assert(T::key_of(vs[i]) != T::key_of(vs[vs.len() - 1]));
        assert(keys_unique::<T>(vs.drop_last()));
        assert(vs.drop_last()[i] == vs[i]);
        lemma_last_with_key_unique::<T>(vs.drop_last(), i);
    }
}

/// The last of `vs` with key `k` is one of `vs`, and has that key.
pub proof fn lemma_last_with_key_in<T: Row>(vs: Seq<T::V>, k: Seq<char>)
    ensures
        match last_with_key::<T>(vs, k) {
            Some(v) => T::key_of(v) == k && exists|j: int| 0 <= j < vs.len() && vs[j] == v,
            None => true,
        },
    decreases vs.len(),
{
    if vs.len() > 0 && T::key_of(vs.last()) != k {
        lemma_last_with_key_in::<T>(vs.drop_last(), k);
        match last_with_key::<T>(vs.drop_last(), k) {
            Some(v) => {
                let j = choose|j: int| 0 <= j < vs.drop_last().len() && vs.drop_last()[j] == v;
                assert(vs[j] == v);
            },
            None => {},
        }
    } else if vs.len() > 0 {
        assert(vs[vs.len() - 1] == vs.last());
    }
}

/// The position of the row with key `k`.
pub fn find_row<T: Row>(rows: &Vec<T>, k: &str) -> (r: Option<usize>)
    requires
        keys_unique::<T>(views(rows@)),
    ensures
        match r {
            Some(i) => i < rows@.len() && holds_key::<T>(views(rows@), k@) && i == row_index::<T>(
                views(rows@),
                k@,
            ),
            None => !holds_key::<T>(views(rows@), k@),
        },
{
    let mut i: usize = 0;
    while i < rows.len()
        invariant
            i <= rows@.len(),
            keys_unique::<T>(views(rows@)),
            forall|j: int| 0 <= j < i ==> T::key_of(#[trigger] views(rows@)[j]) != k@,
        decreases rows@.len() - i,
    {
        if same_text(rows[i].key(), k) {
            proof {
                lemma_row_index_unique::<T>(views(rows@), i as int);
            }
            return Some(i);
        }
        i += 1;
    }
    assert(!holds_key::<T>(views(rows@), k@)) by {
        if holds_key::<T>(views(rows@), k@) {
            let j = choose|j: int| 0 <= j < rows@.len() && T::key_of(views(rows@)[j]) == k@;
            assert(T::key_of(views(rows@)[j]) != k@);
        }
    }
    None
}

/// Stores each of `rows` in turn.
pub fn upsert_rows<T: Row>(dst: &mut Vec<T>, rows: Vec<T>)
    requires
        keys_unique::<T>(views(old(dst)@)),
    ensures
        views(final(dst)@) == upserted_all::<T>(views(old(dst)@), views(rows@)),
        keys_unique::<T>(views(final(dst)@)),
{
    let ghost start = views(dst@);
    let ghost all = views(rows@);
    let mut rest = rows;
    assert(views(rest@) =~= all.subrange(0, all.len() as int));
    while rest.len() > 0
        invariant
            rest@.len() <= all.len(),
            keys_unique::<T>(views(dst@)),
            views(dst@) == upserted_all::<T>(start, all.subrange(0, all.len() - rest@.len())),
            views(rest@) == all.subrange(all.len() - rest@.len(), all.len() as int),
        decreases rest@.len(),
    {
        let ghost n = all.len() - rest@.len();
        let ghost before = rest@;
        let row = rest.remove(0);
        assert(row@ == views(before)[0]);
        assert(row@ == all[n]);
        upsert_row(dst, row);
        assert(all.subrange(0, n + 1).drop_last() =~= all.subrange(0, n));
        assert forall|j: int| 0 <= j < rest@.len() implies views(rest@)[j] == all[n + 1 + j] by {
            assert(rest@[j] == before[j + 1]);
            assert(views(before)[j + 1] == all[n + 1 + j]);
        }
        assert(views(rest@) =~= all.subrange(n + 1, all.len() as int));
    }
    assert(all.subrange(0, all.len() as int) =~= all);
}

/// Removes the row with key `k`, if any; the others keep their order.
pub fn remove_row<T: Row>(rows: &mut Vec<T>, k: &str) -> (r: Option<T>)
    requires
        keys_unique::<T>(views(old(rows)@)),
    ensures
        keys_unique::<T>(views(final(rows)@)),
        match r {
            Some(row) => holds_key::<T>(views(old(rows)@), k@) && row@ == views(old(rows)@)[row_index::<T>(views(old(rows)@), k@)]
                && views(final(rows)@) == views(old(rows)@).remove(row_index::<T>(views(old(rows)@), k@)),
            None => !holds_key::<T>(views(old(rows)@), k@) && final(rows)@ == old(rows)@,
        },
{
    match find_row(rows, k) {
        Some(i) => {
            let row = rows.remove(i);
            assert(views(rows@) =~= views(old(rows)@).remove(i as int));
            assert forall|a: int, b: int| 0 <= a < b < views(rows@).len() implies T::key_of(views(rows@)[a]) != T::key_of(views(rows@)[b]) by {
                let s = views(old(rows)@);
                if a < i && b >= i {
                    assert(T::key_of(s[a]) != T::key_of(s[b + 1]));
                } else if a >= i {
                    assert(T::key_of(s[a + 1]) != T::key_of(s[b + 1]));
                } else {
                    assert(T::key_of(s[a]) != T::key_of(s[b]));
                }
            }
            Some(row)
        },
        None => None,
    }
}

/// Stores `row`: it replaces the row with the same key, or else comes last.
pub fn upsert_row<T: Row>(rows: &mut Vec<T>, row: T)
    requires
        keys_unique::<T>(views(old(rows)@)),
    ensures
        views(final(rows)@) == upserted::<T>(views(old(rows)@), row@),
        keys_unique::<T>(views(final(rows)@)),
{
    let ghost v = row@;
    proof {
        lemma_upserted_unique::<T>(views(old(rows)@), v);
    }
    match find_row(rows, row.key()) {
        Some(i) => {
            rows.set(i, row);
            assert(views(rows@) =~= upserted::<T>(views(old(rows)@), v));
        },
        None => {
            rows.push(row);
            assert(views(rows@) =~= upserted::<T>(views(old(rows)@), v));
        },
    }
}

} // verus!
