//! Keeping lists of strings sorted by code point, with or without duplicates.
use crate::text::{compare_str, lemma_str_order, str_le, str_lt};
use vstd::prelude::*;

verus! {

/// The characters of each string.
pub open spec fn string_views(v: Seq<String>) -> Seq<Seq<char>> {
    v.map_values(|s: String| s@)
}

/// Non-decreasing by `str_le`.
pub open spec fn sorted_le(s: Seq<Seq<char>>) -> bool {
    forall|i: int, j: int| 0 <= i < j < s.len() ==> str_le(#[trigger] s[i], #[trigger] s[j])
}

/// Strictly increasing by `str_lt` (so without duplicates).
pub open spec fn sorted_lt(s: Seq<Seq<char>>) -> bool {
    forall|i: int, j: int| 0 <= i < j < s.len() ==> str_lt(#[trigger] s[i], #[trigger] s[j])
}

/// Number of occurrences of `x` in `s`.
pub open spec fn count_of(s: Seq<Seq<char>>, x: Seq<char>) -> nat
    decreases s.len(),
{
    if s.len() == 0 {
        0
    } else {
        count_of(s.drop_last(), x) + if s.last() == x {
            1nat
        } else {
            0nat
        }
    }
}

/// `a` and `b` hold the same elements the same number of times.
pub open spec fn same_elements(a: Seq<Seq<char>>, b: Seq<Seq<char>>) -> bool {
    forall|x: Seq<char>| count_of(a, x) == count_of(b, x)
}

/// Inserting one element adds one occurrence of it.
pub proof fn lemma_count_insert(s: Seq<Seq<char>>, p: int, x: Seq<char>, y: Seq<char>)
    requires
        0 <= p <= s.len(),
    ensures
        count_of(s.insert(p, x), y) == count_of(s, y) + if x == y {
            1nat
        } else {
            0nat
        },
    decreases s.len(),
{
    if p == s.len() {
        assert(s.insert(p, x).drop_last() =~= s);
    } else {
        assert(s.insert(p, x).drop_last() =~= s.drop_last().insert(p, x));
        lemma_count_insert(s.drop_last(), p, x, y);
    }
}

/// Appending one element adds one occurrence of it.
pub proof fn lemma_count_push(s: Seq<Seq<char>>, x: Seq<char>, y: Seq<char>)
    ensures
        count_of(s.push(x), y) == count_of(s, y) + if x == y {
            1nat
        } else {
            0nat
        },
{
    assert(s.push(x).drop_last() =~= s);
}

/// Inserts `s` into `v`, sorted non-decreasing, after any equal entries.
pub fn insert_sorted(v: &mut Vec<String>, s: String)
    requires
        sorted_le(string_views(old(v)@)),
    ensures
        sorted_le(string_views(final(v)@)),
        exists|p: int|
            0 <= p <= old(v)@.len() && string_views(final(v)@) == string_views(old(v)@).insert(
                p,
                s@,
            ),
{
    let n = v.len();
    let ghost sv = s@;
    let ghost old_views = string_views(v@);
    let mut p: usize = 0;
    while p < n
        invariant
            n == v@.len(),
            p <= n,
            string_views(v@) == old_views,
            sv == s@,
            sorted_le(old_views),
            forall|i: int| 0 <= i < p ==> str_le(#[trigger] old_views[i], sv),
        ensures
            p <= n,
            forall|i: int| 0 <= i < p ==> str_le(#[trigger] old_views[i], sv),
            p < n ==> str_lt(sv, old_views[p as int]),
        decreases n - p,
    {
        let c = compare_str(v[p].as_str(), s.as_str());
        proof {
            assert(old_views[p as int] == v@[p as int]@);
            lemma_str_order(old_views[p as int], sv, sv);
        }
        if c > 0 {
            break;
        }
        p += 1;
    }
    v.insert(p, s);
    proof {
        let nv = string_views(v@);
        assert(nv =~= old_views.insert(p as int, sv));
        assert forall|i: int, j: int| 0 <= i < j < nv.len() implies str_le(
            #[trigger] nv[i],
            #[trigger] nv[j],
        ) by {
            if j < p {
                assert(nv[i] == old_views[i] && nv[j] == old_views[j]);
            } else if j == p {
                assert(nv[i] == old_views[i]);
            } else if i == p {
                assert(nv[j] == old_views[j - 1]);
                assert(str_le(old_views[p as int], old_views[j - 1]));
                lemma_str_order(sv, old_views[p as int], old_views[j - 1]);
            } else if i < p {
                assert(nv[i] == old_views[i] && nv[j] == old_views[j - 1]);
            } else {
                assert(nv[i] == old_views[i - 1] && nv[j] == old_views[j - 1]);
            }
        }
    }
}

/// Inserts `s` into `v`, kept strictly increasing, unless it is already there.
pub fn insert_sorted_unique(v: &mut Vec<String>, s: String)
    requires
        sorted_lt(string_views(old(v)@)),
    ensures
        sorted_lt(string_views(final(v)@)),
        forall|x: Seq<char>|
            string_views(final(v)@).contains(x) <==> (string_views(old(v)@).contains(x) || x
                == s@),
{
    let n = v.len();
    let ghost sv = s@;
    let ghost old_views = string_views(v@);
    let mut p: usize = 0;
    while p < n
        invariant
            n == v@.len(),
            p <= n,
            string_views(v@) == old_views,
            sv == s@,
            sorted_lt(old_views),
            forall|i: int| 0 <= i < p ==> str_lt(#[trigger] old_views[i], sv),
        ensures
            p <= n,
            forall|i: int| 0 <= i < p ==> str_lt(#[trigger] old_views[i], sv),
            p < n ==> !str_lt(old_views[p as int], sv),
        decreases n - p,
    {
        let c = compare_str(v[p].as_str(), s.as_str());
        proof {
            assert(old_views[p as int] == v@[p as int]@);
            lemma_str_order(old_views[p as int], sv, sv);
        }
        if c >= 0 {
            break;
        }
        p += 1;
    }
    if p < n && compare_str(v[p].as_str(), s.as_str()) == 0 {
        proof {
            assert(old_views[p as int] == v@[p as int]@);
            lemma_str_order(old_views[p as int], sv, sv);
            assert(old_views[p as int] == sv);
            assert forall|x: Seq<char>| string_views(v@).contains(x) <==> (
            old_views.contains(x) || x == sv) by {
                if x == sv {
                    assert(old_views[p as int] == x);
                }
            }
        }
        return;
    }
    proof {
        if p < n {
            assert(old_views[p as int] == v@[p as int]@);
            lemma_str_order(old_views[p as int], sv, sv);
            assert(str_lt(sv, old_views[p as int]));
        }
    }
    v.insert(p, s);
    proof {
        let nv = string_views(v@);
        assert(nv =~= old_views.insert(p as int, sv));
        assert forall|i: int, j: int| 0 <= i < j < nv.len() implies str_lt(
            #[trigger] nv[i],
            #[trigger] nv[j],
        ) by {
            if j < p {
                assert(nv[i] == old_views[i] && nv[j] == old_views[j]);
            } else if j == p {
                assert(nv[i] == old_views[i]);
            } else if i == p {
                assert(nv[j] == old_views[j - 1]);
                if j - 1 > p {
                    assert(str_lt(old_views[p as int], old_views[j - 1]));
                    lemma_str_order(sv, old_views[p as int], old_views[j - 1]);
                }
            } else if i < p {
                assert(nv[i] == old_views[i] && nv[j] == old_views[j - 1]);
            } else {
                assert(nv[i] == old_views[i - 1] && nv[j] == old_views[j - 1]);
            }
        }
        assert forall|x: Seq<char>| nv.contains(x) <==> (old_views.contains(x) || x == sv) by {
            if nv.contains(x) {
                let k = choose|k: int| 0 <= k < nv.len() && nv[k] == x;
                if k < p {
                    assert(old_views[k] == x);
                } else if k > p {
                    assert(old_views[k - 1] == x);
                }
            }
            if old_views.contains(x) {
                let k = choose|k: int| 0 <= k < old_views.len() && old_views[k] == x;
                if k < p {
                    assert(nv[k] == x);
                } else {
                    assert(nv[k + 1] == x);
                }
            }
            if x == sv {
                assert(nv[p as int] == x);
            }
        }
    }
}

/// The elements of `xs` in increasing order, each once.
pub open spec fn sorted_unique_of(xs: Set<Seq<char>>) -> Seq<Seq<char>> {
    choose|s: Seq<Seq<char>>| sorted_lt(s) && (forall|x: Seq<char>| s.contains(x) <==> xs.contains(x))
}

/// Two strictly increasing sequences with the same elements are equal.
pub proof fn lemma_sorted_unique(a: Seq<Seq<char>>, b: Seq<Seq<char>>)
    requires
        sorted_lt(a),
        sorted_lt(b),
        forall|x: Seq<char>| a.contains(x) <==> b.contains(x),
    ensures
        a == b,
    decreases a.len(),
{
    if a.len() == 0 {
        if b.len() > 0 {
            assert(b.contains(b[0]));
        }
        assert(a =~= b);
    } else if b.len() == 0 {
        assert(a.contains(a[0]));
    } else {
        assert(a.contains(a[0]));
        assert(b.contains(b[0]));
        let ia = choose|i: int| 0 <= i < a.len() && a[i] == b[0];
        let ib = choose|i: int| 0 <= i < b.len() && b[i] == a[0];
        if ia > 0 {
            assert(str_lt(a[0], a[ia]));
            if ib > 0 {
                assert(str_lt(b[0], b[ib]));
                lemma_str_order(a[0], b[0], a[0]);
            }
        }
        assert(a[0] == b[0]) by {
            if ia > 0 && ib > 0 {
                lemma_str_order(a[0], b[0], a[0]);
            } else if ia == 0 {
            } else {
            }
        }
        let a1 = a.drop_first();
        let b1 = b.drop_first();
        assert forall|x: Seq<char>| a1.contains(x) <==> b1.contains(x) by {
            if a1.contains(x) {
                let k = choose|k: int| 0 <= k < a1.len() && a1[k] == x;
                assert(a[k + 1] == x);
                assert(str_lt(a[0], a[k + 1]));
                lemma_str_order(a[0], x, x);
                assert(b.contains(x));
                let m = choose|m: int| 0 <= m < b.len() && b[m] == x;
                assert(m != 0);
                assert(b1[m - 1] == x);
            }
            if b1.contains(x) {
                let k = choose|k: int| 0 <= k < b1.len() && b1[k] == x;
                assert(b[k + 1] == x);
                assert(str_lt(b[0], b[k + 1]));
                lemma_str_order(b[0], x, x);
                assert(a.contains(x));
                let m = choose|m: int| 0 <= m < a.len() && a[m] == x;
                assert(m != 0);
                assert(a1[m - 1] == x);
            }
        }
        assert(sorted_lt(a1)) by {
            assert forall|i: int, j: int| 0 <= i < j < a1.len() implies str_lt(
                #[trigger] a1[i],
                #[trigger] a1[j],
            ) by {
                assert(a1[i] == a[i + 1] && a1[j] == a[j + 1]);
            }
        }
        assert(sorted_lt(b1)) by {
            assert forall|i: int, j: int| 0 <= i < j < b1.len() implies str_lt(
                #[trigger] b1[i],
                #[trigger] b1[j],
            ) by {
                assert(b1[i] == b[i + 1] && b1[j] == b[j + 1]);
            }
        }
        lemma_sorted_unique(a1, b1);
        assert(a =~= seq![a[0]] + a1);
        assert(b =~= seq![b[0]] + b1);
    }
}

/// A strictly increasing sequence is the sorted listing of its elements.
pub proof fn lemma_is_sorted_unique_of(a: Seq<Seq<char>>, xs: Set<Seq<char>>)
    requires
        sorted_lt(a),
        forall|x: Seq<char>| a.contains(x) <==> xs.contains(x),
    ensures
        a == sorted_unique_of(xs),
{
    let b = sorted_unique_of(xs);
    assert(sorted_lt(b) && (forall|x: Seq<char>| b.contains(x) <==> xs.contains(x)));
    lemma_sorted_unique(a, b);
}

/// `s` with `x` put in its place by `str_lt`.
pub open spec fn placed(s: Seq<Seq<char>>, x: Seq<char>) -> Seq<Seq<char>>
    decreases s.len(),
{
    if s.len() == 0 {
        seq![x]
    } else if str_lt(s.last(), x) {
        s.push(x)
    } else {
        placed(s.drop_last(), x).push(s.last())
    }
}

/// Putting a new element into a strictly increasing sequence keeps it so and
/// adds exactly that element.
proof fn lemma_placed(s: Seq<Seq<char>>, x: Seq<char>)
    requires
        sorted_lt(s),
        !s.contains(x),
    ensures
        sorted_lt(placed(s, x)),
        forall|y: Seq<char>| #[trigger] placed(s, x).contains(y) <==> (s.contains(y) || y == x),
        placed(s, x).len() == s.len() + 1,
    decreases s.len(),
{
    let r = placed(s, x);
    if s.len() == 0 {
        assert forall|y: Seq<char>| #[trigger] r.contains(y) <==> (s.contains(y) || y == x) by {
            if r.contains(y) {
                assert(r[0] == x);
            }
            if y == x {
                assert(r[0] == x);
            }
        }
    } else if str_lt(s.last(), x) {
        assert forall|i: int, j: int| 0 <= i < j < r.len() implies str_lt(#[trigger] r[i], #[trigger] r[j]) by {
            if j == s.len() {
                if i < s.len() - 1 {
                    assert(str_lt(s[i], s[s.len() - 1]));
                    lemma_str_order(s[i], s.last(), x);
                }
            } else {
                assert(r[i] == s[i] && r[j] == s[j]);
            }
        }
        assert forall|y: Seq<char>| #[trigger] r.contains(y) <==> (s.contains(y) || y == x) by {
            if r.contains(y) {
                let k = choose|k: int| 0 <= k < r.len() && r[k] == y;
                if k < s.len() {
                    assert(s[k] == y);
                }
            }
            if s.contains(y) {
                let k = choose|k: int| 0 <= k < s.len() && s[k] == y;
                assert(r[k] == y);
            }
            if y == x {
                assert(r[s.len() as int] == x);
            }
        }
    } else {
        let t = s.drop_last();
        let l = s.last();
        assert(!t.contains(x)) by {
            if t.contains(x) {
                let k = choose|k: int| 0 <= k < t.len() && t[k] == x;
                assert(s[k] == x);
            }
        }
        assert(sorted_lt(t)) by {
            assert forall|i: int, j: int| 0 <= i < j < t.len() implies str_lt(#[trigger] t[i], #[trigger] t[j]) by {
                assert(t[i] == s[i] && t[j] == s[j]);
            }
        }
        lemma_placed(t, x);
        let r0 = placed(t, x);
        assert(r == r0.push(l));
        assert(x != l) by {
            assert(s[s.len() - 1] == l);
        }
        lemma_str_order(x, l, x);
        assert forall|i: int, j: int| 0 <= i < j < r.len() implies str_lt(#[trigger] r[i], #[trigger] r[j]) by {
            if j == r0.len() {
                assert(r[i] == r0[i]);
                assert(r0.contains(r0[i]));
                if r0[i] != x {
                    let k = choose|k: int| 0 <= k < t.len() && t[k] == r0[i];
                    assert(str_lt(s[k], s[s.len() - 1]));
                }
            } else {
                assert(r[i] == r0[i] && r[j] == r0[j]);
            }
        }
        assert forall|y: Seq<char>| #[trigger] r.contains(y) <==> (s.contains(y) || y == x) by {
            if r.contains(y) {
                let k = choose|k: int| 0 <= k < r.len() && r[k] == y;
                if k < r0.len() {
                    assert(r0[k] == y);
                    assert(r0.contains(y));
                    if t.contains(y) {
                        let m = choose|m: int| 0 <= m < t.len() && t[m] == y;
                        assert(s[m] == y);
                    }
                } else {
                    assert(s[s.len() - 1] == y);
                }
            }
            if s.contains(y) {
                let k = choose|k: int| 0 <= k < s.len() && s[k] == y;
                if k < t.len() {
                    assert(t[k] == y);
                    assert(r0.contains(y));
                    let m = choose|m: int| 0 <= m < r0.len() && r0[m] == y;
                    assert(r[m] == y);
                } else {
                    assert(r[r0.len() as int] == y);
                }
            }
            if y == x {
                assert(r0.contains(x));
                let m = choose|m: int| 0 <= m < r0.len() && r0[m] == x;
                assert(r[m] == x);
            }
        }
    }
}

/// A strictly increasing listing of the elements of `xs`, no longer than `xs`.
proof fn lemma_listing(xs: Seq<Seq<char>>) -> (w: Seq<Seq<char>>)
    ensures
        sorted_lt(w),
        forall|y: Seq<char>| #[trigger] w.contains(y) <==> xs.contains(y),
        w.len() <= xs.len(),
    decreases xs.len(),
{
    if xs.len() == 0 {
        Seq::empty()
    } else {
        let ys = xs.drop_last();
        let x = xs.last();
        let w0 = lemma_listing(ys);
        assert forall|y: Seq<char>| xs.contains(y) <==> (#[trigger] ys.contains(y) || y == x) by {
            if xs.contains(y) {
                let k = choose|k: int| 0 <= k < xs.len() && xs[k] == y;
                if k < ys.len() {
                    assert(ys[k] == y);
                }
            }
            if ys.contains(y) {
                let k = choose|k: int| 0 <= k < ys.len() && ys[k] == y;
                assert(xs[k] == y);
            }
            if y == x {
                assert(xs[xs.len() - 1] == x);
            }
        }
        if w0.contains(x) {
            w0
        } else {
            lemma_placed(w0, x);
            placed(w0, x)
        }
    }
}

/// The sorted listing of the distinct elements of `xs` has no more entries
/// than `xs`.
pub proof fn lemma_sorted_unique_len(xs: Seq<Seq<char>>)
    ensures
        sorted_unique_of(xs.to_set()).len() <= xs.len(),
{
    let w = lemma_listing(xs);
    assert forall|y: Seq<char>| w.contains(y) <==> xs.to_set().contains(y) by {}
    lemma_is_sorted_unique_of(w, xs.to_set());
}

/// A copy of `names` sorted by code point (std `sort` on strings); equal
/// entries are indistinguishable, so the order among them does not matter.
pub fn sorted_strings(names: Vec<String>) -> (r: Vec<String>)
    ensures
        sorted_le(string_views(r@)),
        same_elements(string_views(r@), string_views(names@)),
{
    let n = names.len();
    let mut out: Vec<String> = Vec::new();
    let mut i: usize = 0;
    while i < n
        invariant
            n == names@.len(),
            i <= n,
            sorted_le(string_views(out@)),
            same_elements(string_views(out@), string_views(names@.subrange(0, i as int))),
        decreases n - i,
    {
        let s = names[i].clone();
        let ghost before = string_views(out@);
        insert_sorted(&mut out, s);
        proof {
            let p = choose|p: int|
                0 <= p <= before.len() && string_views(out@) == before.insert(p, names@[i as int]@);
            assert(string_views(names@.subrange(0, i + 1)) =~= string_views(
                names@.subrange(0, i as int),
            ).push(names@[i as int]@));
            assert forall|x: Seq<char>| count_of(string_views(out@), x) == count_of(
                string_views(names@.subrange(0, i + 1)),
                x,
            ) by {
                lemma_count_insert(before, p, names@[i as int]@, x);
                lemma_count_push(
                    string_views(names@.subrange(0, i as int)),
                    names@[i as int]@,
                    x,
                );
            }
        }
        i += 1;
    }
    assert(names@.subrange(0, n as int) =~= names@);
    out
}

} // verus!
