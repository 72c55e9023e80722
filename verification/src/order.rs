//! Ordering records by name: the lexicographic order of their characters,
//! and a stable sort of records (spaces, projects) by it.
//!
//! Strings compare by their UTF-8 bytes; since UTF-8 preserves the order of
//! code points, that is the lexicographic order of their characters.

use vstd::prelude::*;

use crate::model::{Project, ProjectView, Space, SpaceView};
use crate::text::chars_of;

verus! {

/// Whether `a` comes strictly before `b` in lexicographic order.
pub open spec fn name_lt(a: Seq<char>, b: Seq<char>) -> bool
    decreases a.len(),
{
    if a.len() == 0 {
        b.len() > 0
    } else if b.len() == 0 {
        false
    } else if a[0] != b[0] {
        a[0] < b[0]
    } else {
        name_lt(a.drop_first(), b.drop_first())
    }
}

/// Whether `a` comes strictly before `b` in lexicographic order.
pub fn text_lt(a: &String, b: &String) -> (r: bool)
    ensures
        r == name_lt(a@, b@),
{
    let x = chars_of(a.as_str());
    let y = chars_of(b.as_str());
    let mut i: usize = 0;
    assert(x@.skip(0) =~= x@);
    assert(y@.skip(0) =~= y@);
    while i < x.len() && i < y.len()
        invariant
            i <= x@.len(),
            i <= y@.len(),
            x@ == a@,
            y@ == b@,
            name_lt(a@, b@) == name_lt(x@.skip(i as int), y@.skip(i as int)),
        decreases x.len() - i,
    {
        assert(x@.skip(i as int).drop_first() =~= x@.skip(i as int + 1));
        assert(y@.skip(i as int).drop_first() =~= y@.skip(i as int + 1));
        assert(x@.skip(i as int)[0] == x@[i as int]);
        assert(y@.skip(i as int)[0] == y@[i as int]);
        let c = x[i];
        let d = y[i];
        if c != d {
            return c < d;
        }
        i += 1;
    }
    i < y.len()
}

// ---------------------------------------------------------------------------
// Records ordered by name
// ---------------------------------------------------------------------------

/// A record that is kept in order of its name.
pub trait Named: View + Sized {
    /// The name a record whose view is `v` is ordered by.
    spec fn key(v: Self::V) -> Seq<char>;

    /// The name this record is ordered by.
    fn sort_name(&self) -> (r: &String)
        ensures
            r@ == Self::key(self@),
    ;
}

impl Named for Space {
    open spec fn key(v: SpaceView) -> Seq<char> {
        v.name
    }

    fn sort_name(&self) -> (r: &String) {
        &self.name
    }
}

impl Named for Project {
    open spec fn key(v: ProjectView) -> Seq<char> {
        v.name
    }

    fn sort_name(&self) -> (r: &String) {
        &self.name
    }
}

/// The views of the records `s`, in order.
pub open spec fn views_of<T: View>(s: Seq<T>) -> Seq<T::V> {
    s.map_values(|x: T| x@)
}

/// Inserts `x` after every record that does not come after it.
pub open spec fn insert_named<T: Named>(sorted: Seq<T::V>, x: T::V) -> Seq<T::V>
    decreases sorted.len(),
{
    if sorted.len() == 0 {
        seq![x]
    } else if name_lt(T::key(x), T::key(sorted.last())) {
        insert_named::<T>(sorted.drop_last(), x).push(sorted.last())
    } else {
        sorted.push(x)
    }
}

/// The records `s` stably sorted by name: each inserted, in turn, after
/// every record that does not come after it.
pub open spec fn sort_named<T: Named>(s: Seq<T::V>) -> Seq<T::V>
    decreases s.len(),
{
    if s.len() == 0 {
        s
    } else {
        insert_named::<T>(sort_named::<T>(s.drop_last()), s.last())
    }
}

/// The spaces stably sorted by name.
pub open spec fn sort_spaces(s: Seq<SpaceView>) -> Seq<SpaceView> {
    sort_named::<Space>(s)
}

/// The projects stably sorted by name.
pub open spec fn sort_projects(s: Seq<ProjectView>) -> Seq<ProjectView> {
    sort_named::<Project>(s)
}

proof fn lemma_insert_at<T: Named>(sorted: Seq<T::V>, x: T::V, j: int)
    requires
        0 <= j <= sorted.len(),
        forall|m: int| j <= m < sorted.len() ==> name_lt(T::key(x), T::key(#[trigger] sorted[m])),
        j > 0 ==> !name_lt(T::key(x), T::key(sorted[j - 1])),
    ensures
        insert_named::<T>(sorted, x) == sorted.take(j).push(x) + sorted.skip(j),
    decreases sorted.len(),
{
    if sorted.len() == j {
        assert(sorted.take(j) =~= sorted);
        assert(sorted.skip(j) =~= Seq::<T::V>::empty());
        assert(sorted.take(j).push(x) + sorted.skip(j) =~= sorted.push(x));
    } else {
        let d = sorted.drop_last();
        assert(name_lt(T::key(x), T::key(sorted[sorted.len() - 1])));
        lemma_insert_at::<T>(d, x, j);
        assert(d.take(j) =~= sorted.take(j));
        assert((d.take(j).push(x) + d.skip(j)).push(sorted.last()) =~= sorted.take(j).push(x) + sorted.skip(j));
    }
}

/// Sorts records by name; records of equal name keep their order.
pub fn sort_by_name<T: Named>(v: Vec<T>) -> (r: Vec<T>)
    ensures
        views_of(r@) == sort_named::<T>(views_of(v@)),
{
    let ghost all = views_of(v@);
    let mut r: Vec<T> = Vec::new();
    let mut rest = v;
    let ghost mut i: int = 0;
    assert(all.take(0) =~= Seq::<T::V>::empty());
    assert(views_of(r@) =~= Seq::<T::V>::empty());
    assert(views_of(rest@) =~= all.skip(0));
    while rest.len() > 0
        invariant
            0 <= i <= all.len(),
            views_of(rest@) == all.skip(i),
            views_of(r@) == sort_named::<T>(all.take(i)),
        decreases rest.len(),
    {
        let ghost before = rest@;
        let x = rest.remove(0);
        assert(views_of(before).len() == before.len());
        assert(x == before[0]);
        assert(x@ == all[i]) by {
            assert(views_of(before)[0] == before[0]@);
            assert(views_of(before)[0] == all.skip(i)[0]);
        }
        assert(views_of(rest@) =~= all.skip(i + 1)) by {
            assert(views_of(rest@).len() == rest@.len());
            assert forall|k: int| 0 <= k < rest@.len() implies views_of(rest@)[k] == all.skip(i + 1)[k] by {
                assert(rest@[k] == before[k + 1]);
                assert(views_of(rest@)[k] == rest@[k]@);
                assert(views_of(before)[k + 1] == before[k + 1]@);
                assert(views_of(before)[k + 1] == all.skip(i)[k + 1]);
            }
        }
        let ghost sorted = views_of(r@);
        let mut j = r.len();
        while j > 0 && text_lt(x.sort_name(), r[j - 1].sort_name())
            invariant
                j <= r@.len(),
                sorted == views_of(r@),
                forall|m: int| j <= m < r@.len() ==> name_lt(T::key(x@), T::key(#[trigger] sorted[m])),
            decreases j,
        {
            proof {
                assert(sorted[j - 1] == r@[j - 1]@);
            }
            j -= 1;
        }
        proof {
            if j > 0 {
                assert(sorted[j - 1] == r@[j - 1]@);
            }
            lemma_insert_at::<T>(sorted, x@, j as int);
            assert(all.take(i + 1).drop_last() =~= all.take(i));
            assert(all.take(i + 1).last() == all[i]);
        }
        r.insert(j, x);
        assert(views_of(r@) =~= sorted.take(j as int).push(all[i]) + sorted.skip(j as int));
        proof {
            i = i + 1;
        }
    }
    assert(all.take(i) =~= all);
    r
}

// ---------------------------------------------------------------------------
// The order is a strict total order, and sorting sorts
// ---------------------------------------------------------------------------

/// No name comes before itself.
pub proof fn lemma_name_lt_irreflexive(a: Seq<char>)
    ensures
        !name_lt(a, a),
    decreases a.len(),
{
    if a.len() > 0 {
        lemma_name_lt_irreflexive(a.drop_first());
    }
}

/// Two names are never each before the other.
pub proof fn lemma_name_lt_asymmetric(a: Seq<char>, b: Seq<char>)
    ensures
        name_lt(a, b) ==> !name_lt(b, a),
    decreases a.len(),
{
    if a.len() > 0 && b.len() > 0 && a[0] == b[0] {
        lemma_name_lt_asymmetric(a.drop_first(), b.drop_first());
    }
}

/// Of two different names, one comes before the other.
pub proof fn lemma_name_lt_total(a: Seq<char>, b: Seq<char>)
    ensures
        a != b ==> name_lt(a, b) || name_lt(b, a),
    decreases a.len(),
{
    if a.len() == 0 && b.len() == 0 {
        assert(a =~= b);
    } else if a.len() > 0 && b.len() > 0 {
        if a[0] == b[0] {
            lemma_name_lt_total(a.drop_first(), b.drop_first());
            if a.drop_first() == b.drop_first() {
                assert(a.drop_first().len() == b.drop_first().len());
                assert(a.len() == b.len());
                assert forall|i: int| 0 <= i < a.len() implies a[i] == b[i] by {
                    if i > 0 {
                        assert(a[i] == a.drop_first()[i - 1]);
                        assert(b[i] == b.drop_first()[i - 1]);
                    }
                }
                assert(a =~= b);
            }
        }
    }
}

/// The order is transitive.
pub proof fn lemma_name_lt_transitive(a: Seq<char>, b: Seq<char>, c: Seq<char>)
    requires
        name_lt(a, b),
        name_lt(b, c),
    ensures
        name_lt(a, c),
    decreases a.len(),
{
    if a.len() > 0 && b.len() > 0 && c.len() > 0 && a[0] == b[0] && b[0] == c[0] {
        lemma_name_lt_transitive(a.drop_first(), b.drop_first(), c.drop_first());
    }
}

/// "Not after" is transitive.
proof fn lemma_not_after_transitive(a: Seq<char>, b: Seq<char>, c: Seq<char>)
    requires
        !name_lt(b, a),
        !name_lt(c, b),
    ensures
        !name_lt(c, a),
{
    lemma_name_lt_total(a, b);
    lemma_name_lt_total(b, c);
    lemma_name_lt_asymmetric(c, a);
    lemma_name_lt_irreflexive(a);
    if name_lt(c, a) {
        if a != b && b != c {
            lemma_name_lt_transitive(a, b, c);
        } else if a != b {
            lemma_name_lt_asymmetric(a, b);
        }
    }
}

/// Whether no record comes after one that follows it.
pub open spec fn sorted_named<T: Named>(s: Seq<T::V>) -> bool {
    forall|i: int, j: int| 0 <= i < j < s.len() ==> !name_lt(T::key(#[trigger] s[j]), T::key(#[trigger] s[i]))
}

/// Whether a record's name is `k`.
pub open spec fn named<T: Named>(k: Seq<char>) -> spec_fn(T::V) -> bool {
    |w: T::V| T::key(w) == k
}

/// Inserting adds exactly the inserted record.
proof fn lemma_insert_multiset<T: Named>(sorted: Seq<T::V>, x: T::V)
    ensures
        insert_named::<T>(sorted, x).to_multiset() == sorted.to_multiset().insert(x),
    decreases sorted.len(),
{
    broadcast use vstd::seq_lib::group_to_multiset_ensures;

    if sorted.len() == 0 {
        assert(seq![x] =~= Seq::<T::V>::empty().push(x));
    } else if name_lt(T::key(x), T::key(sorted.last())) {
        lemma_insert_multiset::<T>(sorted.drop_last(), x);
        assert(sorted.drop_last().push(sorted.last()) =~= sorted);
        assert(sorted.to_multiset() =~= sorted.drop_last().to_multiset().insert(sorted.last()));
        assert(insert_named::<T>(sorted, x).to_multiset() =~= sorted.to_multiset().insert(x));
    }
}

/// Inserting into a sorted sequence keeps it sorted.
proof fn lemma_insert_sorted<T: Named>(sorted: Seq<T::V>, x: T::V)
    requires
        sorted_named::<T>(sorted),
    ensures
        sorted_named::<T>(insert_named::<T>(sorted, x)),
    decreases sorted.len(),
{
    broadcast use vstd::seq_lib::group_to_multiset_ensures;

    if sorted.len() == 0 {
    } else if name_lt(T::key(x), T::key(sorted.last())) {
        let d = sorted.drop_last();
        let last = sorted.last();
        lemma_insert_sorted::<T>(d, x);
        lemma_insert_multiset::<T>(d, x);
        let t = insert_named::<T>(d, x);
        assert forall|k: int| 0 <= k < t.len() implies !name_lt(T::key(last), T::key(#[trigger] t[k])) by {
            assert(t.to_multiset().count(t[k]) > 0);
            if t[k] == x {
                lemma_name_lt_asymmetric(T::key(x), T::key(last));
            } else {
                assert(d.to_multiset().count(t[k]) > 0);
                assert(d.contains(t[k]));
                let m = choose|m: int| 0 <= m < d.len() && d[m] == t[k];
                assert(sorted[m] == t[k]);
                assert(sorted[sorted.len() - 1] == last);
            }
        }
        let r = t.push(last);
        assert forall|i: int, j: int| 0 <= i < j < r.len() implies !name_lt(T::key(#[trigger] r[j]), T::key(#[trigger] r[i])) by {
            if j == r.len() - 1 {
                assert(r[i] == t[i]);
            } else {
                assert(r[i] == t[i] && r[j] == t[j]);
            }
        }
    } else {
        let last = sorted.last();
        let r = sorted.push(x);
        assert forall|i: int, j: int| 0 <= i < j < r.len() implies !name_lt(T::key(#[trigger] r[j]), T::key(#[trigger] r[i])) by {
            if j == r.len() - 1 {
                if i < sorted.len() - 1 {
                    assert(sorted[sorted.len() - 1] == last);
                    assert(!name_lt(T::key(last), T::key(sorted[i])));
                    lemma_not_after_transitive(T::key(sorted[i]), T::key(last), T::key(x));
                }
            } else {
                assert(r[i] == sorted[i] && r[j] == sorted[j]);
            }
        }
    }
}

/// Inserting `x` keeps, among the records of each name, their order, with
/// `x` last among those of its own name.
proof fn lemma_insert_stable<T: Named>(sorted: Seq<T::V>, x: T::V, k: Seq<char>)
    ensures
        insert_named::<T>(sorted, x).filter(named::<T>(k)) == sorted.push(x).filter(named::<T>(k)),
    decreases sorted.len(),
{
    reveal_with_fuel(Seq::<_>::filter, 2);
    if sorted.len() > 0 && name_lt(T::key(x), T::key(sorted.last())) {
        let d = sorted.drop_last();
        let last = sorted.last();
        lemma_insert_stable::<T>(d, x, k);
        lemma_name_lt_irreflexive(T::key(x));
        assert(insert_named::<T>(sorted, x).drop_last() == insert_named::<T>(d, x));
        assert(sorted.push(x).drop_last() =~= sorted);
        assert(d.push(x).drop_last() =~= d);
        assert(sorted.drop_last() == d);
        if T::key(x) == k {
            assert(T::key(last) != k);
        }
    }
}

/// Sorting records by name orders them by name and keeps exactly the same
/// records.
pub proof fn law_sort_named<T: Named>(s: Seq<T::V>)
    ensures
        sorted_named::<T>(sort_named::<T>(s)),
        sort_named::<T>(s).to_multiset() == s.to_multiset(),
    decreases s.len(),
{
    broadcast use vstd::seq_lib::group_to_multiset_ensures;

    if s.len() > 0 {
        law_sort_named::<T>(s.drop_last());
        lemma_insert_sorted::<T>(sort_named::<T>(s.drop_last()), s.last());
        lemma_insert_multiset::<T>(sort_named::<T>(s.drop_last()), s.last());
        assert(s.drop_last().push(s.last()) =~= s);
    }
}

/// Sorting is stable: the records of any one name come out in the order
/// they went in.
pub proof fn law_sort_named_stable<T: Named>(s: Seq<T::V>, k: Seq<char>)
    ensures
        sort_named::<T>(s).filter(named::<T>(k)) == s.filter(named::<T>(k)),
    decreases s.len(),
{
    if s.len() > 0 {
        let d = s.drop_last();
        law_sort_named_stable::<T>(d, k);
        lemma_insert_stable::<T>(sort_named::<T>(d), s.last(), k);
        reveal_with_fuel(Seq::<_>::filter, 1);
        assert(sort_named::<T>(d).push(s.last()).drop_last() =~= sort_named::<T>(d));
        assert(d.push(s.last()) =~= s);
    }
}

} // verus!
