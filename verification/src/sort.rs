//! Sorting with deduplication, for lists keyed by text.
//!
//! Items travel with their key as `(key, item)` pairs. The result is ordered
//! by key and holds each key once.
use vstd::prelude::*;
use crate::text::{compare_at, lemma_lex_irreflexive, lemma_lex_total, lemma_lex_transitive, lex_lt, strictly_sorted, Order};

verus! {

/// The keys of a list of pairs.
pub open spec fn keys_of<T>(v: Seq<(Vec<char>, T)>) -> Seq<Seq<char>> {
    v.map_values(|p: (Vec<char>, T)| p.0@)
}

/// Strictly decreasing under [`lex_lt`].
pub open spec fn strictly_desc(s: Seq<Seq<char>>) -> bool {
    forall|i: int, j: int| 0 <= i < j < s.len() ==> lex_lt(#[trigger] s[j], #[trigger] s[i])
}

/// A key is among those of a list with one more pair exactly when it is
/// among the old keys or is the new pair's key.
pub proof fn lemma_keys_push<T>(v: Seq<(Vec<char>, T)>, x: (Vec<char>, T), h: Seq<char>)
    ensures
        keys_of(v.push(x)).contains(h) <==> (keys_of(v).contains(h) || x.0@ == h),
{
    if keys_of(v.push(x)).contains(h) {
        let j = choose|j: int| 0 <= j < keys_of(v.push(x)).len() && keys_of(v.push(x))[j] == h;
        if j < v.len() {
            assert(keys_of(v)[j] == h);
        }
    }
    if keys_of(v).contains(h) {
        let j = choose|j: int| 0 <= j < keys_of(v).len() && keys_of(v)[j] == h;
        assert(keys_of(v.push(x))[j] == h);
    }
    if x.0@ == h {
        assert(keys_of(v.push(x))[v.len() as int] == h);
    }
}

/// Reverse a vector.
pub fn reverse_vec<T>(v: Vec<T>) -> (r: Vec<T>)
    ensures
        r@ == v@.reverse(),
{
    let ghost v0 = v@;
    let mut v = v;
    let mut r: Vec<T> = Vec::new();
    while v.len() > 0
        invariant
            v@ == v0.take(v@.len() as int),
            r@ == v0.skip(v@.len() as int).reverse(),
            v@.len() <= v0.len(),
        decreases v@.len(),
    {
        let ghost n = v@.len();
        let x = v.pop().unwrap();
        r.push(x);
        assert(v@ =~= v0.take(v@.len() as int));
        assert(r@ =~= v0.skip(v@.len() as int).reverse());
    }
    assert(v0.skip(0) =~= v0);
    r
}

proof fn lemma_keys_reverse<T>(s: Seq<(Vec<char>, T)>)
    requires
        strictly_desc(keys_of(s)),
    ensures
        strictly_sorted(keys_of(s.reverse())),
        forall|k: Seq<char>| keys_of(s.reverse()).contains(k) <==> keys_of(s).contains(k),
        forall|x: (Vec<char>, T)| s.reverse().contains(x) <==> s.contains(x),
{
    let r = s.reverse();
    let n = s.len();
    assert forall|i: int, j: int| 0 <= i < j < keys_of(r).len() implies lex_lt(
        #[trigger] keys_of(r)[i],
        #[trigger] keys_of(r)[j],
    ) by {
        assert(keys_of(r)[i] == keys_of(s)[n - 1 - i]);
        assert(keys_of(r)[j] == keys_of(s)[n - 1 - j]);
    }
    assert forall|k: Seq<char>| keys_of(r).contains(k) <==> keys_of(s).contains(k) by {
        if keys_of(r).contains(k) {
            let i = choose|i: int| 0 <= i < keys_of(r).len() && keys_of(r)[i] == k;
            assert(keys_of(s)[n - 1 - i] == k);
        }
        if keys_of(s).contains(k) {
            let i = choose|i: int| 0 <= i < keys_of(s).len() && keys_of(s)[i] == k;
            assert(keys_of(r)[n - 1 - i] == k);
        }
    }
    assert forall|x: (Vec<char>, T)| r.contains(x) <==> s.contains(x) by {
        if r.contains(x) {
            let i = choose|i: int| 0 <= i < r.len() && r[i] == x;
            assert(s[n - 1 - i] == x);
        }
        if s.contains(x) {
            let i = choose|i: int| 0 <= i < s.len() && s[i] == x;
            assert(r[n - 1 - i] == x);
        }
    }
}

/// Merge two strictly increasing lists into one, keeping one item per key
/// (the one from `a` when both hold a key).
fn merge<T>(a: Vec<(Vec<char>, T)>, b: Vec<(Vec<char>, T)>) -> (r: Vec<(Vec<char>, T)>)
    requires
        strictly_sorted(keys_of(a@)),
        strictly_sorted(keys_of(b@)),
    ensures
        strictly_sorted(keys_of(r@)),
        forall|k: Seq<char>| keys_of(r@).contains(k) <==> (keys_of(a@).contains(k) || keys_of(b@).contains(k)),
        forall|x: (Vec<char>, T)| r@.contains(x) ==> (a@.contains(x) || b@.contains(x)),
{
    let ghost a0 = a@;
    let ghost b0 = b@;
    let mut a = a;
    let mut b = b;
    let mut out: Vec<(Vec<char>, T)> = Vec::new();
    loop
        invariant
            strictly_sorted(keys_of(a0)),
            strictly_sorted(keys_of(b0)),
            a@.len() <= a0.len(),
            b@.len() <= b0.len(),
            a@ == a0.take(a@.len() as int),
            b@ == b0.take(b@.len() as int),
            strictly_desc(keys_of(out@)),
            out@.len() > 0 ==> forall|k: int| 0 <= k < a@.len() ==> lex_lt(#[trigger] a0[k].0@, out@.last().0@),
            out@.len() > 0 ==> forall|k: int| 0 <= k < b@.len() ==> lex_lt(#[trigger] b0[k].0@, out@.last().0@),
            forall|k: Seq<char>|
                keys_of(out@).contains(k) <==> (keys_of(a0.skip(a@.len() as int)).contains(k)
                    || keys_of(b0.skip(b@.len() as int)).contains(k)),
            forall|x: (Vec<char>, T)| out@.contains(x) ==> (a0.contains(x) || b0.contains(x)),
        ensures
            a@.len() == 0,
            b@.len() == 0,
        decreases a@.len() + b@.len(),
    {
        let na = a.len();
        let nb = b.len();
        if na == 0 && nb == 0 {
            break;
        }
        let ghost o = out@;
        let ghost ia = na as int;
        let ghost ib = nb as int;
        let take_a: bool;
        let take_b: bool;
        if na == 0 {
            take_a = false;
            take_b = true;
        } else if nb == 0 {
            take_a = true;
            take_b = false;
        } else {
            assert(b@[nb - 1].0@.skip(0) =~= b@[nb - 1].0@);
            match compare_at(a[na - 1].0.as_slice(), b[nb - 1].0.as_slice(), 0) {
                Order::Greater => {
                    take_a = true;
                    take_b = false;
                },
                Order::Less => {
                    take_a = false;
                    take_b = true;
                },
                Order::Equal => {
                    assert(a@[na - 1].0@ == b@[nb - 1].0@);
                    take_a = true;
                    take_b = true;
                },
            }
        }
        let ghost x;
        if take_a {
            let pa = a.pop().unwrap();
            proof {
                x = pa;
            }
            if take_b {
                let _pb = b.pop();
            }
            out.push(pa);
        } else {
            let pb = b.pop().unwrap();
            proof {
                x = pb;
            }
            out.push(pb);
        }
        proof {
            assert(out@ == o.push(x));
            assert(a@ =~= a0.take(a@.len() as int));
            assert(b@ =~= b0.take(b@.len() as int));
            assert(take_a ==> x == a0[ia - 1]);
            assert(!take_a ==> x == b0[ib - 1]);
            // The new item sits above everything still waiting.
            assert forall|k: int| 0 <= k < a@.len() implies lex_lt(#[trigger] a0[k].0@, out@.last().0@) by {
                if take_a {
                    assert(lex_lt(keys_of(a0)[k], keys_of(a0)[ia - 1]));
                } else {
                    if nb > 0 && na > 0 {
                        lemma_lex_total(a0[ia - 1].0@, b0[ib - 1].0@);
                        if k < ia - 1 {
                            assert(lex_lt(keys_of(a0)[k], keys_of(a0)[ia - 1]));
                            lemma_lex_transitive(a0[k].0@, a0[ia - 1].0@, b0[ib - 1].0@);
                        }
                    }
                }
            }
            assert forall|k: int| 0 <= k < b@.len() implies lex_lt(#[trigger] b0[k].0@, out@.last().0@) by {
                if !take_a {
                    assert(lex_lt(keys_of(b0)[k], keys_of(b0)[ib - 1]));
                } else if take_b {
                    assert(b@.len() == ib - 1);
                    assert(0 <= k < keys_of(b0).len());
                    assert(keys_of(b0)[k] == b0[k].0@);
                    assert(keys_of(b0)[ib - 1] == b0[ib - 1].0@);
                    assert(lex_lt(keys_of(b0)[k], keys_of(b0)[ib - 1]));
                } else if nb > 0 {
                    lemma_lex_total(a0[ia - 1].0@, b0[ib - 1].0@);
                    if k < ib - 1 {
                        assert(lex_lt(keys_of(b0)[k], keys_of(b0)[ib - 1]));
                        lemma_lex_transitive(b0[k].0@, b0[ib - 1].0@, a0[ia - 1].0@);
                    }
                }
            }
            // Still strictly decreasing.
            assert forall|i: int, j: int| 0 <= i < j < keys_of(out@).len() implies lex_lt(
                #[trigger] keys_of(out@)[j],
                #[trigger] keys_of(out@)[i],
            ) by {
                if j == o.len() {
                    assert(keys_of(out@)[j] == x.0@);
                    if take_a {
                        assert(lex_lt(a0[ia - 1].0@, o.last().0@));
                    } else {
                        assert(lex_lt(b0[ib - 1].0@, o.last().0@));
                    }
                    assert(keys_of(out@)[i] == o[i].0@);
                    if i < o.len() - 1 {
                        assert(keys_of(o)[i] == o[i].0@);
                        assert(keys_of(o)[o.len() - 1] == o.last().0@);
                        assert(lex_lt(keys_of(o)[o.len() - 1], keys_of(o)[i]));
                        lemma_lex_transitive(x.0@, o.last().0@, o[i].0@);
                    }
                } else {
                    assert(keys_of(out@)[i] == keys_of(o)[i]);
                    assert(keys_of(out@)[j] == keys_of(o)[j]);
                }
            }
            // The keys seen so far.
            let sa = a0.skip(a@.len() as int);
            let sb = b0.skip(b@.len() as int);
            let osa = a0.skip(ia);
            let osb = b0.skip(ib);
            assert forall|k: Seq<char>| keys_of(out@).contains(k) <==> (keys_of(sa).contains(k)
                || keys_of(sb).contains(k)) by {
                if keys_of(out@).contains(k) {
                    let i = choose|i: int| 0 <= i < keys_of(out@).len() && keys_of(out@)[i] == k;
                    if i < o.len() {
                        assert(keys_of(o)[i] == k);
                        assert(keys_of(o).contains(k));
                        if keys_of(osa).contains(k) {
                            let j = choose|j: int| 0 <= j < keys_of(osa).len() && keys_of(osa)[j] == k;
                            assert(keys_of(sa)[j + (ia - a@.len())] == k);
                        } else {
                            assert(keys_of(osb).contains(k));
                            let j = choose|j: int| 0 <= j < keys_of(osb).len() && keys_of(osb)[j] == k;
                            assert(keys_of(sb)[j + (ib - b@.len())] == k);
                        }
                    } else if take_a {
                        assert(keys_of(sa)[0] == k);
                    } else {
                        assert(keys_of(sb)[0] == k);
                    }
                }
                if keys_of(sa).contains(k) {
                    let j = choose|j: int| 0 <= j < keys_of(sa).len() && keys_of(sa)[j] == k;
                    if j == 0 && a@.len() < ia {
                        if take_a {
                            assert(keys_of(out@)[o.len() as int] == k);
                        }
                    } else {
                        assert(keys_of(osa)[j - (ia - a@.len())] == k);
                        assert(keys_of(o).contains(k));
                        let i = choose|i: int| 0 <= i < keys_of(o).len() && keys_of(o)[i] == k;
                        assert(keys_of(out@)[i] == k);
                    }
                }
                if keys_of(sb).contains(k) {
                    let j = choose|j: int| 0 <= j < keys_of(sb).len() && keys_of(sb)[j] == k;
                    if j == 0 && b@.len() < ib {
                        if !take_a {
                            assert(keys_of(out@)[o.len() as int] == k);
                        } else {
                            assert(keys_of(out@)[o.len() as int] == k);
                        }
                    } else {
                        assert(keys_of(osb)[j - (ib - b@.len())] == k);
                        assert(keys_of(o).contains(k));
                        let i = choose|i: int| 0 <= i < keys_of(o).len() && keys_of(o)[i] == k;
                        assert(keys_of(out@)[i] == k);
                    }
                }
            }
            assert forall|y: (Vec<char>, T)| out@.contains(y) implies (a0.contains(y) || b0.contains(y)) by {
                let i = choose|i: int| 0 <= i < out@.len() && out@[i] == y;
                if i < o.len() {
                    assert(o[i] == y);
                } else if take_a {
                    assert(a0[ia - 1] == y);
                } else {
                    assert(b0[ib - 1] == y);
                }
            }
        }
    }
    assert(a0.skip(0) =~= a0);
    assert(b0.skip(0) =~= b0);
    proof {
        lemma_keys_reverse(out@);
        assert forall|k: Seq<char>| keys_of(out@.reverse()).contains(k) <==> (keys_of(a0).contains(k)
            || keys_of(b0).contains(k)) by {
            assert(keys_of(out@.reverse()).contains(k) <==> keys_of(out@).contains(k));
        }
    }
    reverse_vec(out)
}

/// The items of a list of pairs, in order.
pub fn values_of<T>(v: Vec<(Vec<char>, T)>) -> (r: Vec<T>)
    ensures
        r@.len() == v@.len(),
        forall|i: int| 0 <= i < v@.len() ==> #[trigger] r@[i] == v@[i].1,
{
    let ghost v0 = v@;
    let mut rev = reverse_vec(v);
    let mut out: Vec<T> = Vec::new();
    while rev.len() > 0
        invariant
            out@.len() + rev@.len() == v0.len(),
            forall|j: int| 0 <= j < rev@.len() ==> rev@[j] == v0[v0.len() - 1 - j],
            forall|j: int| 0 <= j < out@.len() ==> out@[j] == v0[j].1,
        decreases rev@.len(),
    {
        let (_, x) = rev.pop().unwrap();
        out.push(x);
    }
    out
}

/// Is `key` among the keys of the strictly increasing list `v`?
pub fn contains_key<T>(v: &Vec<(Vec<char>, T)>, key: &[char]) -> (r: bool)
    requires
        strictly_sorted(keys_of(v@)),
    ensures
        r == keys_of(v@).contains(key@),
{
    find_key(v, key).is_some()
}

/// Where `key` sits among the keys of the strictly increasing list `v`.
pub fn find_key<T>(v: &Vec<(Vec<char>, T)>, key: &[char]) -> (r: Option<usize>)
    requires
        strictly_sorted(keys_of(v@)),
    ensures
        r matches Some(i) ==> i < v@.len() && keys_of(v@)[i as int] == key@,
        r is None <==> !keys_of(v@).contains(key@),
{
    let ghost ks = keys_of(v@);
    let mut lo: usize = 0;
    let mut hi: usize = v.len();
    assert(key@.skip(0) =~= key@);
    while lo < hi
        invariant
            lo <= hi <= v@.len(),
            ks == keys_of(v@),
            key@.skip(0) == key@,
            strictly_sorted(ks),
            forall|k: int| 0 <= k < lo ==> lex_lt(#[trigger] ks[k], key@),
            forall|k: int| hi <= k < ks.len() ==> lex_lt(key@, #[trigger] ks[k]),
        decreases hi - lo,
    {
        let mid = lo + (hi - lo) / 2;
        assert(ks[mid as int] == v@[mid as int].0@);
        match compare_at(v[mid].0.as_slice(), key, 0) {
            Order::Equal => {
                return Some(mid);
            },
            Order::Less => {
                assert forall|k: int| 0 <= k < mid + 1 implies lex_lt(#[trigger] ks[k], key@) by {
                    if k < mid {
                        lemma_lex_transitive(ks[k], ks[mid as int], key@);
                    }
                }
                lo = mid + 1;
            },
            Order::Greater => {
                assert forall|k: int| mid <= k < ks.len() implies lex_lt(key@, #[trigger] ks[k]) by {
                    if k > mid {
                        lemma_lex_transitive(key@, ks[mid as int], ks[k]);
                    }
                }
                hi = mid;
            },
        }
    }
    proof {
        lemma_lex_irreflexive(key@);
    }
    assert(!ks.contains(key@));
    None
}

/// Sort by key, keeping one item per key.
pub fn sort_dedup<T>(v: Vec<(Vec<char>, T)>) -> (r: Vec<(Vec<char>, T)>)
    ensures
        strictly_sorted(keys_of(r@)),
        forall|k: Seq<char>| keys_of(r@).contains(k) <==> keys_of(v@).contains(k),
        forall|x: (Vec<char>, T)| r@.contains(x) ==> v@.contains(x),
    decreases v@.len(),
{
    let ghost v0 = v@;
    let mut v = v;
    let n = v.len();
    if n <= 1 {
        proof {
            lemma_lex_irreflexive(Seq::empty());
        }
        return v;
    }
    let right = v.split_off(n / 2);
    let ghost l0 = v@;
    let ghost r0 = right@;
    assert(v0 =~= l0 + r0);
    let sl = sort_dedup(v);
    let sr = sort_dedup(right);
    let m = merge(sl, sr);
    proof {
        assert forall|k: Seq<char>| keys_of(v0).contains(k) <==> (keys_of(l0).contains(k)
            || keys_of(r0).contains(k)) by {
            if keys_of(v0).contains(k) {
                let i = choose|i: int| 0 <= i < keys_of(v0).len() && keys_of(v0)[i] == k;
                if i < l0.len() {
                    assert(keys_of(l0)[i] == k);
                } else {
                    assert(keys_of(r0)[i - l0.len()] == k);
                }
            }
            if keys_of(l0).contains(k) {
                let i = choose|i: int| 0 <= i < keys_of(l0).len() && keys_of(l0)[i] == k;
                assert(keys_of(v0)[i] == k);
            }
            if keys_of(r0).contains(k) {
                let i = choose|i: int| 0 <= i < keys_of(r0).len() && keys_of(r0)[i] == k;
                assert(keys_of(v0)[i + l0.len()] == k);
            }
        }
        assert forall|x: (Vec<char>, T)| l0.contains(x) || r0.contains(x) implies v0.contains(x) by {
            if l0.contains(x) {
                let i = choose|i: int| 0 <= i < l0.len() && l0[i] == x;
                assert(v0[i] == x);
            } else {
                let i = choose|i: int| 0 <= i < r0.len() && r0[i] == x;
                assert(v0[i + l0.len()] == x);
            }
        }
    }
    m
}

} // verus!
