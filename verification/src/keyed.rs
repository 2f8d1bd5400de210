//! Tables of records keyed by a string, kept sorted by key in `str`'s order.
//! Such a table behaves as a map from key to record, and listing it gives
//! the records in key order.

use vstd::prelude::*;
use vstd::string::*;
use vstd::utf8::*;

use crate::text::{
    TextOrder, compare_text, lemma_text_lt_irreflexive, lemma_text_lt_total, lemma_text_lt_transitive,
    text_eq, text_lt,
};

verus! {

/// A record that carries its own string key.
pub trait Keyed: View + Sized {
    spec fn key_view(&self) -> Seq<char>;

    fn key(&self) -> (k: &str)
        ensures
            k@ == self.key_view(),
    ;
}

/// Keys strictly increase along the sequence.
pub open spec fn sorted_keys<T: Keyed>(s: Seq<T>) -> bool {
    forall|i: int, j: int|
        0 <= i < j < s.len() ==> #[trigger] text_lt(s[i].key_view(), s[j].key_view())
}

/// Some record of the sequence has key `k`.
pub open spec fn has_key<T: Keyed>(s: Seq<T>, k: Seq<char>) -> bool {
    exists|i: int| 0 <= i < s.len() && #[trigger] s[i].key_view() == k
}

/// The index of the record with key `k`.
pub open spec fn index_of_key<T: Keyed>(s: Seq<T>, k: Seq<char>) -> int {
    choose|i: int| 0 <= i < s.len() && #[trigger] s[i].key_view() == k
}

/// The table as a map from key to the view of its record.
pub open spec fn keyed_map<T: Keyed>(s: Seq<T>) -> Map<Seq<char>, T::V> {
    Map::new(|k: Seq<char>| has_key(s, k), |k: Seq<char>| s[index_of_key(s, k)]@)
}

/// Two sequences with the same keys and views in the same places.
pub open spec fn same_entries<T: Keyed>(a: Seq<T>, b: Seq<T>) -> bool {
    &&& a.len() == b.len()
    &&& forall|i: int|
        0 <= i < a.len() ==> #[trigger] a[i].key_view() == b[i].key_view() && a[i]@ == b[i]@
}

pub proof fn lemma_sorted_distinct<T: Keyed>(s: Seq<T>, i: int, j: int)
    requires
        sorted_keys(s),
        0 <= i < s.len(),
        0 <= j < s.len(),
        i != j,
    ensures
        s[i].key_view() != s[j].key_view(),
{
    if i < j {
        assert(text_lt(s[i].key_view(), s[j].key_view()));
        if s[i].key_view() == s[j].key_view() {
            lemma_text_lt_irreflexive(s[i].key_view());
        }
    } else {
        assert(text_lt(s[j].key_view(), s[i].key_view()));
        if s[i].key_view() == s[j].key_view() {
            lemma_text_lt_irreflexive(s[i].key_view());
        }
    }
}

/// In a sorted table, the record at `i` is the one its key maps to.
pub proof fn lemma_keyed_map_at<T: Keyed>(s: Seq<T>, i: int)
    requires
        sorted_keys(s),
        0 <= i < s.len(),
    ensures
        keyed_map(s).contains_key(s[i].key_view()),
        index_of_key(s, s[i].key_view()) == i,
        keyed_map(s)[s[i].key_view()] == s[i]@,
{
    let k = s[i].key_view();
    assert(has_key(s, k));
    let j = index_of_key(s, k);
    if j != i {
        lemma_sorted_distinct(s, i, j);
    }
}

/// A sorted table has exactly one record per key of its map.
pub proof fn lemma_sorted_len<T: Keyed>(s: Seq<T>)
    requires
        sorted_keys(s),
    ensures
        keyed_map(s).dom().len() == s.len(),
        keyed_map(s).dom().finite(),
{
    let ks = s.map_values(|t: T| t.key_view());
    assert forall|i: int, j: int| 0 <= i < ks.len() && 0 <= j < ks.len() && i != j implies ks[i]
        != ks[j] by {
        lemma_sorted_distinct(s, i, j);
    }
    assert(ks.no_duplicates());
    ks.unique_seq_to_set();
    assert forall|k: Seq<char>| ks.to_set().contains(k) <==> keyed_map(s).dom().contains(k) by {
        if ks.to_set().contains(k) {
            let i = choose|i: int| 0 <= i < ks.len() && ks[i] == k;
            assert(s[i].key_view() == k);
        }
        if keyed_map(s).dom().contains(k) {
            let i = index_of_key(s, k);
            assert(ks[i] == k);
        }
    }
    assert(ks.to_set() =~= keyed_map(s).dom());
}

/// Sequences with the same entries give the same map and the same order.
pub proof fn lemma_same_entries<T: Keyed>(a: Seq<T>, b: Seq<T>)
    requires
        same_entries(a, b),
        sorted_keys(a),
    ensures
        keyed_map(a) == keyed_map(b),
        sorted_keys(b),
{
    assert forall|x: int, y: int| 0 <= x < y < b.len() implies #[trigger] text_lt(
        b[x].key_view(),
        b[y].key_view(),
    ) by {
        assert(text_lt(a[x].key_view(), a[y].key_view()));
    }
    assert forall|k: Seq<char>| has_key(a, k) <==> has_key(b, k) by {
        if has_key(a, k) {
            let i = index_of_key(a, k);
            assert(b[i].key_view() == k);
        }
        if has_key(b, k) {
            let i = index_of_key(b, k);
            assert(a[i].key_view() == k);
        }
    }
    assert forall|k: Seq<char>| #[trigger] keyed_map(a).contains_key(k) implies keyed_map(a)[k]
        == keyed_map(b)[k] by {
        let i = index_of_key(a, k);
        lemma_keyed_map_at(a, i);
        lemma_keyed_map_at(b, i);
    }
    assert(keyed_map(a) =~= keyed_map(b));
}

/// The position of key `k` in a sorted table, or where it would go.
pub open spec fn insertion_point<T: Keyed>(s: Seq<T>, k: Seq<char>, p: int) -> bool {
    &&& 0 <= p <= s.len()
    &&& forall|i: int| 0 <= i < p ==> #[trigger] text_lt(s[i].key_view(), k)
    &&& p < s.len() ==> !text_lt(s[p].key_view(), k)
}

/// Finds the record with key `k`.
pub fn find_key<T: Keyed>(v: &Vec<T>, k: &str) -> (r: Option<usize>)
    requires
        sorted_keys(v@),
    ensures
        r matches Some(i) ==> i < v@.len() && v@[i as int].key_view() == k@,
        r is None <==> !keyed_map(v@).contains_key(k@),
{
    let mut i: usize = 0;
    while i < v.len()
        invariant
            i <= v@.len(),
            forall|j: int| 0 <= j < i ==> #[trigger] v@[j].key_view() != k@,
        decreases v@.len() - i,
    {
        if text_eq(v[i].key(), k) {
            return Some(i);
        }
        i = i + 1;
    }
    None
}

/// Finds where key `k` stands or would stand.
fn locate<T: Keyed>(v: &Vec<T>, k: &str) -> (p: usize)
    requires
        sorted_keys(v@),
    ensures
        insertion_point(v@, k@, p as int),
{
    let mut i: usize = 0;
    while i < v.len()
        invariant
            i <= v@.len(),
            forall|j: int| 0 <= j < i ==> #[trigger] text_lt(v@[j].key_view(), k@),
        decreases v@.len() - i,
    {
        match compare_text(v[i].key(), k) {
            TextOrder::Less => {},
            _ => {
                return i;
            },
        }
        i = i + 1;
    }
    i
}

proof fn lemma_insert_at<T: Keyed>(s: Seq<T>, p: int, x: T)
    requires
        sorted_keys(s),
        insertion_point(s, x.key_view(), p),
        p < s.len() ==> s[p].key_view() != x.key_view(),
    ensures
        sorted_keys(s.insert(p, x)),
        keyed_map(s.insert(p, x)) == keyed_map(s).insert(x.key_view(), x@),
{
    let t = s.insert(p, x);
    let k = x.key_view();
    assert forall|i: int, j: int| 0 <= i < j < t.len() implies #[trigger] text_lt(
        t[i].key_view(),
        t[j].key_view(),
    ) by {
        if j < p {
        } else if j == p {
        } else {
            // j > p: k < s[p] <= s[j - 1] == t[j]
            let kp = s[p].key_view();
            lemma_text_lt_total(kp, k);
            if j - 1 != p {
                assert(text_lt(s[p].key_view(), s[j - 1].key_view()));
                lemma_text_lt_transitive(k, kp, s[j - 1].key_view());
            }
            assert(text_lt(k, t[j].key_view()));
            if i < p {
                lemma_text_lt_transitive(s[i].key_view(), k, t[j].key_view());
            } else if i > p {
                assert(text_lt(s[i - 1].key_view(), s[j - 1].key_view()));
            }
        }
    }
    lemma_keyed_map_at(t, p);
    assert forall|q: Seq<char>| #[trigger] has_key(t, q) <==> (has_key(s, q) || q == k) by {
        if has_key(t, q) {
            let i = index_of_key(t, q);
            if i < p {
                assert(s[i].key_view() == q);
            } else if i > p {
                assert(s[i - 1].key_view() == q);
            }
        }
        if has_key(s, q) {
            let i = index_of_key(s, q);
            if i < p {
                assert(t[i].key_view() == q);
            } else {
                assert(t[i + 1].key_view() == q);
            }
        }
    }
    assert forall|q: Seq<char>| #[trigger]
        keyed_map(t).contains_key(q) implies keyed_map(t)[q] == keyed_map(s).insert(k, x@)[q] by {
        if q != k {
            let i = index_of_key(s, q);
            lemma_keyed_map_at(s, i);
            if i < p {
                lemma_keyed_map_at(t, i);
            } else {
                lemma_keyed_map_at(t, i + 1);
            }
        }
    }
    assert(keyed_map(t) =~= keyed_map(s).insert(k, x@));
}

proof fn lemma_update_at<T: Keyed>(s: Seq<T>, i: int, x: T)
    requires
        sorted_keys(s),
        0 <= i < s.len(),
        s[i].key_view() == x.key_view(),
    ensures
        sorted_keys(s.update(i, x)),
        keyed_map(s.update(i, x)) == keyed_map(s).insert(x.key_view(), x@),
{
    let t = s.update(i, x);
    let k = x.key_view();
    assert forall|a: int, b: int| 0 <= a < b < t.len() implies #[trigger] text_lt(
        t[a].key_view(),
        t[b].key_view(),
    ) by {
        assert(text_lt(s[a].key_view(), s[b].key_view()));
    }
    lemma_keyed_map_at(t, i);
    assert forall|q: Seq<char>| #[trigger] has_key(t, q) <==> has_key(s, q) by {
        if has_key(t, q) {
            let j = index_of_key(t, q);
            assert(s[j].key_view() == q);
        }
        if has_key(s, q) {
            let j = index_of_key(s, q);
            assert(t[j].key_view() == q);
        }
    }
    lemma_keyed_map_at(s, i);
    assert forall|q: Seq<char>| #[trigger]
        keyed_map(t).contains_key(q) implies keyed_map(t)[q] == keyed_map(s).insert(k, x@)[q] by {
        if q != k {
            let j = index_of_key(s, q);
            lemma_keyed_map_at(s, j);
            lemma_keyed_map_at(t, j);
        }
    }
    assert(keyed_map(t) =~= keyed_map(s).insert(k, x@));
}

proof fn lemma_remove_at<T: Keyed>(s: Seq<T>, i: int)
    requires
        sorted_keys(s),
        0 <= i < s.len(),
    ensures
        sorted_keys(s.remove(i)),
        keyed_map(s.remove(i)) == keyed_map(s).remove(s[i].key_view()),
{
    let t = s.remove(i);
    let k = s[i].key_view();
    assert forall|a: int, b: int| 0 <= a < b < t.len() implies #[trigger] text_lt(
        t[a].key_view(),
        t[b].key_view(),
    ) by {
        if a < i && b >= i {
            assert(text_lt(s[a].key_view(), s[b + 1].key_view()));
        } else if a >= i {
            assert(text_lt(s[a + 1].key_view(), s[b + 1].key_view()));
        } else {
            assert(text_lt(s[a].key_view(), s[b].key_view()));
        }
    }
    assert forall|q: Seq<char>| #[trigger] has_key(t, q) <==> (has_key(s, q) && q != k) by {
        if has_key(t, q) {
            let j = index_of_key(t, q);
            if j < i {
                assert(s[j].key_view() == q);
                lemma_sorted_distinct(s, j, i);
            } else {
                assert(s[j + 1].key_view() == q);
                lemma_sorted_distinct(s, j + 1, i);
            }
        }
        if has_key(s, q) && q != k {
            let j = index_of_key(s, q);
            if j < i {
                assert(t[j].key_view() == q);
            } else {
                assert(t[j - 1].key_view() == q);
            }
        }
    }
    assert forall|q: Seq<char>| #[trigger]
        keyed_map(t).contains_key(q) implies keyed_map(t)[q] == keyed_map(s).remove(k)[q] by {
        let j = index_of_key(s, q);
        lemma_keyed_map_at(s, j);
        if j < i {
            lemma_keyed_map_at(t, j);
        } else {
            lemma_keyed_map_at(t, j - 1);
        }
    }
    assert(keyed_map(t) =~= keyed_map(s).remove(k));
}

/// Puts `x` in the table, replacing the record with the same key if any.
pub fn insert_keyed<T: Keyed>(v: &mut Vec<T>, x: T)
    requires
        sorted_keys(old(v)@),
    ensures
        sorted_keys(final(v)@),
        keyed_map(final(v)@) == keyed_map(old(v)@).insert(x.key_view(), x@),
{
    let p = locate(v, x.key());
    if p < v.len() && text_eq(v[p].key(), x.key()) {
        proof {
            lemma_update_at(v@, p as int, x);
        }
        v.set(p, x);
    } else {
        proof {
            lemma_insert_at(v@, p as int, x);
        }
        v.insert(p, x);
    }
}

/// Replaces the record at `i` by one with the same key.
pub fn replace_at<T: Keyed>(v: &mut Vec<T>, i: usize, x: T)
    requires
        sorted_keys(old(v)@),
        i < old(v)@.len(),
        old(v)@[i as int].key_view() == x.key_view(),
    ensures
        sorted_keys(final(v)@),
        final(v)@ == old(v)@.update(i as int, x),
        keyed_map(final(v)@) == keyed_map(old(v)@).insert(x.key_view(), x@),
{
    proof {
        lemma_update_at(v@, i as int, x);
    }
    v.set(i, x);
}

/// Takes the record at `i` out of the table.
pub fn remove_at<T: Keyed>(v: &mut Vec<T>, i: usize) -> (r: T)
    requires
        sorted_keys(old(v)@),
        i < old(v)@.len(),
    ensures
        r == old(v)@[i as int],
        final(v)@ == old(v)@.remove(i as int),
        sorted_keys(final(v)@),
        keyed_map(final(v)@) == keyed_map(old(v)@).remove(r.key_view()),
{
    proof {
        lemma_remove_at(v@, i as int);
    }
    v.remove(i)
}

} // verus!
