//! Small list operations on strings and bundle rows: membership, filtering,
//! lookup by id and a stable sort by sort order.

use vstd::prelude::*;

use crate::config::BundleRow;
use crate::text::str_eq;

verus! {

/// Whether some element of `v` has the text `x`.
pub open spec fn has_text(v: Seq<String>, x: Seq<char>) -> bool {
    exists|i: int| 0 <= i < v.len() && #[trigger] v[i]@ == x
}

/// Whether some element of the list has the given text.
pub fn contains_text(v: &Vec<String>, x: &str) -> (r: bool)
    ensures
        r == has_text(v@, x@),
{
    let mut i: usize = 0;
    while i < v.len()
        invariant
            i <= v.len(),
            forall|k: int| 0 <= k < i ==> #[trigger] v@[k]@ != x@,
        decreases v.len() - i,
    {
        if str_eq(v[i].as_str(), x) {
            assert(v@[i as int]@ == x@);
            return true;
        }
        i = i + 1;
    }
    false
}

/// The elements of `v` whose text satisfies `keep`, in order.
pub open spec fn filter_texts(v: Seq<String>, keep: spec_fn(Seq<char>) -> bool) -> Seq<String>
    decreases v.len(),
{
    if v.len() == 0 {
        v
    } else if keep(v.last()@) {
        filter_texts(v.drop_last(), keep).push(v.last())
    } else {
        filter_texts(v.drop_last(), keep)
    }
}

/// `v` without the elements whose text is `x`.
pub open spec fn without_text(v: Seq<String>, x: Seq<char>) -> Seq<String> {
    filter_texts(v, |s: Seq<char>| s != x)
}

/// Every element of `filter_texts(v, keep)` satisfies `keep` and comes from `v`.
pub proof fn lemma_filter_texts(v: Seq<String>, keep: spec_fn(Seq<char>) -> bool)
    ensures
        forall|i: int|
            0 <= i < filter_texts(v, keep).len() ==> keep(#[trigger] filter_texts(v, keep)[i]@),
        forall|i: int|
            0 <= i < filter_texts(v, keep).len() ==> exists|k: int|
                0 <= k < v.len() && v[k] == #[trigger] filter_texts(v, keep)[i],
        forall|k: int| 0 <= k < v.len() && keep(#[trigger] v[k]@) ==> has_text(filter_texts(v, keep), v[k]@),
    decreases v.len(),
{
    if v.len() > 0 {
        let d = v.drop_last();
        lemma_filter_texts(d, keep);
        let f = filter_texts(d, keep);
        assert forall|i: int| 0 <= i < filter_texts(v, keep).len() implies exists|k: int|
            0 <= k < v.len() && v[k] == #[trigger] filter_texts(v, keep)[i] by {
            if i < f.len() {
                let k = choose|k: int| 0 <= k < d.len() && d[k] == f[i];
                assert(v[k] == filter_texts(v, keep)[i]);
            } else {
                assert(v[v.len() - 1] == filter_texts(v, keep)[i]);
            }
        }
        assert forall|k: int| 0 <= k < v.len() && keep(#[trigger] v[k]@) implies has_text(
            filter_texts(v, keep),
            v[k]@,
        ) by {
            if k < d.len() {
                assert(d[k] == v[k]);
                let j = choose|j: int| 0 <= j < f.len() && #[trigger] f[j]@ == d[k]@;
                assert(filter_texts(v, keep)[j] == f[j]);
            } else {
                assert(filter_texts(v, keep)[f.len() as int] == v[k]);
            }
        }
    }
}

/// Remove every element whose text is `x`.
pub fn remove_text(v: &mut Vec<String>, x: &str)
    ensures
        final(v)@ == without_text(old(v)@, x@),
{
    let ghost keep = |s: Seq<char>| s != x@;
    let ghost v0 = v@;
    let mut out: Vec<String> = Vec::new();
    let mut i: usize = 0;
    assert(v0.take(0) =~= Seq::<String>::empty());
    while i < v.len()
        invariant
            v@ == v0,
            i <= v0.len(),
            keep == (|s: Seq<char>| s != x@),
            out@ == filter_texts(v0.take(i as int), keep),
        decreases v0.len() - i,
    {
        assert(v0.take(i + 1).drop_last() =~= v0.take(i as int));
        assert(v0.take(i + 1).last() == v0[i as int]);
        if !str_eq(v[i].as_str(), x) {
            out.push(v[i].clone());
        }
        i = i + 1;
    }
    assert(v0.take(i as int) =~= v0);
    *v = out;
}

/// The index of the first row with id `id`.
pub open spec fn is_first_row(rows: Seq<BundleRow>, id: Seq<char>, k: int) -> bool {
    &&& 0 <= k < rows.len()
    &&& rows[k].id@ == id
    &&& forall|j: int| 0 <= j < k ==> #[trigger] rows[j].id@ != id
}

/// The index of the first row with id `id`, if any row has it.
pub open spec fn first_row(rows: Seq<BundleRow>, id: Seq<char>) -> Option<int> {
    if exists|k: int| is_first_row(rows, id, k) {
        Some(choose|k: int| is_first_row(rows, id, k))
    } else {
        None
    }
}

/// Find the first row with the given id.
pub fn find_row(rows: &Vec<BundleRow>, id: &str) -> (r: Option<usize>)
    ensures
        match r {
            Some(k) => first_row(rows@, id@) == Some(k as int),
            None => first_row(rows@, id@) is None,
        },
{
    let mut i: usize = 0;
    while i < rows.len()
        invariant
            i <= rows.len(),
            forall|j: int| 0 <= j < i ==> #[trigger] rows@[j].id@ != id@,
        decreases rows.len() - i,
    {
        if str_eq(rows[i].id.as_str(), id) {
            assert(is_first_row(rows@, id@, i as int));
            let ghost c = choose|k: int| is_first_row(rows@, id@, k);
            assert(c == i) by {
                if c < i {
                } else if c > i {
                    assert(rows@[i as int].id@ == id@);
                }
            }
            return Some(i);
        }
        i = i + 1;
    }
    assert(!exists|k: int| is_first_row(rows@, id@, k));
    None
}

/// `x` placed into the ascending list `t` after every row whose sort order
/// is not greater.
pub open spec fn insert_row(t: Seq<BundleRow>, x: BundleRow) -> Seq<BundleRow>
    decreases t.len(),
{
    if t.len() == 0 {
        seq![x]
    } else if t.last().sort_order <= x.sort_order {
        t.push(x)
    } else {
        insert_row(t.drop_last(), x).push(t.last())
    }
}

/// Stable ascending sort by sort order: rows with equal sort order keep
/// their relative order.
pub open spec fn sort_rows(s: Seq<BundleRow>) -> Seq<BundleRow>
    decreases s.len(),
{
    if s.len() == 0 {
        s
    } else {
        insert_row(sort_rows(s.drop_last()), s.last())
    }
}

/// Rows are in ascending sort order.
pub open spec fn rows_ascending(s: Seq<BundleRow>) -> bool {
    forall|i: int, j: int| 0 <= i < j < s.len() ==> s[i].sort_order <= s[j].sort_order
}

/// Insert a row into an ascending list after all rows not greater than it.
fn insert_row_exec(t: &mut Vec<BundleRow>, x: BundleRow)
    ensures
        final(t)@ == insert_row(old(t)@, x),
{
    let ghost t0 = t@;
    let key = x.sort_order;
    let mut j = t.len();
    assert(t0.subrange(0, j as int) =~= t0);
    assert(t0.subrange(j as int, t0.len() as int) =~= Seq::<BundleRow>::empty());
    while j > 0 && t[j - 1].sort_order > key
        invariant
            t@ == t0,
            j <= t0.len(),
            key == x.sort_order,
            insert_row(t0, x) == insert_row(t0.subrange(0, j as int), x) + t0.subrange(
                j as int,
                t0.len() as int,
            ),
        decreases j,
    {
        proof {
            let u = t0.subrange(0, j as int);
            assert(u.drop_last() =~= t0.subrange(0, j - 1));
            assert(u.last() == t0[j - 1]);
            assert(insert_row(u, x) == insert_row(t0.subrange(0, j - 1), x).push(t0[j - 1]));
            assert(t0.subrange(j - 1, t0.len() as int) =~= seq![t0[j - 1]] + t0.subrange(
                j as int,
                t0.len() as int,
            ));
            assert(insert_row(t0.subrange(0, j - 1), x).push(t0[j - 1]) + t0.subrange(
                j as int,
                t0.len() as int,
            ) =~= insert_row(t0.subrange(0, j - 1), x) + t0.subrange(j - 1, t0.len() as int));
        }
        j = j - 1;
    }
    proof {
        let u = t0.subrange(0, j as int);
        if j > 0 {
            assert(u.last() == t0[j - 1]);
            assert(insert_row(u, x) == u.push(x));
        } else {
            assert(insert_row(u, x) == seq![x]);
        }
        assert(u.push(x) + t0.subrange(j as int, t0.len() as int) =~= t0.insert(j as int, x));
    }
    t.insert(j, x);
}

/// Sort rows by sort order, stably.
pub fn sort_rows_exec(v: Vec<BundleRow>) -> (r: Vec<BundleRow>)
    ensures
        r@ == sort_rows(v@),
{
    let mut src = v;
    let n = src.len();
    let mut rev: Vec<BundleRow> = Vec::new();
    let ghost s0 = src@;
    while src.len() > 0
        invariant
            s0 == src@ + rev@.reverse(),
        decreases src@.len(),
    {
        let ghost before = src@;
        let x = src.pop().unwrap();
        rev.push(x);
        proof {
            assert(before =~= src@.push(x));
            assert(rev@.reverse() =~= seq![x] + rev@.drop_last().reverse());
            assert(src@ + rev@.reverse() =~= src@.push(x) + rev@.drop_last().reverse());
        }
    }
    assert(src@ =~= Seq::<BundleRow>::empty());
    assert(s0 =~= rev@.reverse());
    let mut out: Vec<BundleRow> = Vec::new();
    let mut done: usize = 0;
    assert(s0.take(0) =~= Seq::<BundleRow>::empty());
    while rev.len() > 0
        invariant
            s0 == s0.take(done as int) + rev@.reverse(),
            done + rev@.len() == s0.len(),
            s0.len() == n,
            out@ == sort_rows(s0.take(done as int)),
        decreases rev@.len(),
    {
        let ghost before = rev@;
        let x = rev.pop().unwrap();
        proof {
            assert(before.reverse() =~= seq![x] + rev@.reverse());
            assert(s0[done as int] == x) by {
                assert(s0 =~= s0.take(done as int) + before.reverse());
            }
            assert(s0.take(done + 1).drop_last() =~= s0.take(done as int));
            assert(s0.take(done + 1).last() == x);
            assert(s0 =~= s0.take(done + 1) + rev@.reverse());
        }
        insert_row_exec(&mut out, x);
        done = done + 1;
    }
    assert(s0.take(done as int) =~= s0);
    out
}

} // verus!
