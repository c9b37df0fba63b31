//! Lexicographic order on character sequences, and sorting by it.
//!
//! Strings order byte by byte; since UTF-8 keeps the order of code points,
//! that is the order of their characters compared by code point.
use vstd::prelude::*;
use vstd::seq_lib::to_multiset_insert;
use vstd::utf8::char_u32_cast;
use crate::text::views;

verus! {

/// `a` comes no later than `b` in lexicographic order of code points.
pub open spec fn lex_le(a: Seq<char>, b: Seq<char>) -> bool
    decreases a.len(),
{
    if a.len() == 0 {
        true
    } else if b.len() == 0 {
        false
    } else if a[0] != b[0] {
        (a[0] as u32) < (b[0] as u32)
    } else {
        lex_le(a.drop_first(), b.drop_first())
    }
}

/// Every earlier element comes no later than every later one.
pub open spec fn sorted(s: Seq<Seq<char>>) -> bool {
    forall|i: int, j: int| 0 <= i < j < s.len() ==> lex_le(#[trigger] s[i], #[trigger] s[j])
}

/// Any two texts are ordered one way or the other.
pub proof fn lemma_lex_total(a: Seq<char>, b: Seq<char>)
    ensures
        lex_le(a, b) || lex_le(b, a),
    decreases a.len(),
{
    if a.len() > 0 && b.len() > 0 {
        if a[0] == b[0] {
            lemma_lex_total(a.drop_first(), b.drop_first());
        } else {
            if (a[0] as u32) == (b[0] as u32) {
                char_u32_cast(a[0], a[0] as u32);
                char_u32_cast(b[0], b[0] as u32);
            }
        }
    }
}

/// The lexicographic order is transitive.
pub proof fn lemma_lex_trans(a: Seq<char>, b: Seq<char>, c: Seq<char>)
    requires
        lex_le(a, b),
        lex_le(b, c),
    ensures
        lex_le(a, c),
    decreases a.len(),
{
    if a.len() > 0 && b.len() > 0 && c.len() > 0 && a[0] == b[0] && b[0] == c[0] {
        lemma_lex_trans(a.drop_first(), b.drop_first(), c.drop_first());
    }
}

/// Texts ordered both ways are equal.
pub proof fn lemma_lex_antisym(a: Seq<char>, b: Seq<char>)
    requires
        lex_le(a, b),
        lex_le(b, a),
    ensures
        a == b,
    decreases a.len(),
{
    if a.len() > 0 && b.len() > 0 {
        lemma_lex_antisym(a.drop_first(), b.drop_first());
        assert(a =~= seq![a[0]] + a.drop_first());
        assert(b =~= seq![b[0]] + b.drop_first());
    } else {
        assert(a =~= b);
    }
}


/// The elements of `s` in lexicographic order.
pub open spec fn lex_sorted(s: Seq<Seq<char>>) -> Seq<Seq<char>> {
    choose|t: Seq<Seq<char>>| sorted(t) && t.to_multiset() == s.to_multiset()
}

/// Two sorted arrangements of the same elements are the same sequence.
pub proof fn lemma_sorted_unique(a: Seq<Seq<char>>, b: Seq<Seq<char>>)
    requires
        sorted(a),
        sorted(b),
        a.to_multiset() == b.to_multiset(),
    ensures
        a == b,
    decreases a.len(),
{
    broadcast use vstd::seq_lib::group_to_multiset_ensures;
    a.to_multiset_ensures();
    b.to_multiset_ensures();
    if a.len() == 0 {
        assert(b.len() == 0);
        assert(a =~= b);
    } else {
        assert(b.len() > 0);
        assert(a.to_multiset().count(a[0]) > 0);
        assert(b.contains(a[0]));
        let j = choose|j: int| 0 <= j < b.len() && b[j] == a[0];
        assert(b[0] == b[0]);
        assert(b.contains(b[0]));
        assert(a.to_multiset().count(b[0]) > 0);
        assert(a.contains(b[0]));
        let i = choose|i: int| 0 <= i < a.len() && a[i] == b[0];
        if i > 0 {
            assert(lex_le(a[0], a[i]));
        } else {
            assert(a[0] == b[0]);
        }
        if j > 0 {
            assert(lex_le(b[0], b[j]));
        }
        if a[0] != b[0] {
            lemma_lex_antisym(a[0], b[0]);
        }
        assert(a.remove(0) =~= a.drop_first());
        assert(b.remove(0) =~= b.drop_first());
        assert(a.remove(0).to_multiset() == a.to_multiset().remove(a[0]));
        assert(b.remove(0).to_multiset() == b.to_multiset().remove(b[0]));
        lemma_sorted_unique(a.drop_first(), b.drop_first());
        assert(a =~= seq![a[0]] + a.drop_first());
        assert(b =~= seq![b[0]] + b.drop_first());
    }
}

/// A sorted arrangement of `s` is `lex_sorted(s)`.
pub proof fn lemma_lex_sorted_is(s: Seq<Seq<char>>, t: Seq<Seq<char>>)
    requires
        sorted(t),
        t.to_multiset() == s.to_multiset(),
    ensures
        lex_sorted(s) == t,
{
    let u = lex_sorted(s);
    assert(sorted(u) && u.to_multiset() == s.to_multiset());
    lemma_sorted_unique(u, t);
}


/// `x` put into `t` before the first element that comes after it.
pub open spec fn insert_sorted(t: Seq<Seq<char>>, x: Seq<char>) -> Seq<Seq<char>>
    decreases t.len(),
{
    if t.len() == 0 {
        seq![x]
    } else if lex_le(t[0], x) {
        seq![t[0]] + insert_sorted(t.drop_first(), x)
    } else {
        seq![x] + t
    }
}

/// Inserting into a sorted sequence keeps it sorted, adds the element, and
/// brings in nothing else.
proof fn lemma_insert_sorted(t: Seq<Seq<char>>, x: Seq<char>)
    requires
        sorted(t),
    ensures
        sorted(insert_sorted(t, x)),
        insert_sorted(t, x).to_multiset() == t.to_multiset().insert(x),
        forall|i: int| 0 <= i < insert_sorted(t, x).len() ==> (#[trigger] insert_sorted(t, x)[i] == x
            || t.contains(insert_sorted(t, x)[i])),
    decreases t.len(),
{
    broadcast use vstd::seq_lib::group_to_multiset_ensures;
    let r = insert_sorted(t, x);
    if t.len() == 0 {
        assert(r =~= t.push(x));
        assert(t.push(x).to_multiset() =~= t.to_multiset().insert(x));
    } else if lex_le(t[0], x) {
        let rest = t.drop_first();
        assert(sorted(rest)) by {
            assert forall|i: int, j: int| 0 <= i < j < rest.len() implies lex_le(#[trigger] rest[i], #[trigger] rest[j]) by {
                assert(rest[i] == t[i + 1] && rest[j] == t[j + 1]);
            }
        }
        lemma_insert_sorted(rest, x);
        let ir = insert_sorted(rest, x);
        assert(r =~= seq![t[0]] + ir);
        assert forall|i: int, j: int| 0 <= i < j < r.len() implies lex_le(#[trigger] r[i], #[trigger] r[j]) by {
            if i == 0 {
                assert(r[j] == ir[j - 1]);
                if ir[j - 1] != x {
                    assert(rest.contains(ir[j - 1]));
                    let k = choose|k: int| 0 <= k < rest.len() && rest[k] == ir[j - 1];
                    assert(rest[k] == t[k + 1]);
                }
            } else {
                assert(r[i] == ir[i - 1] && r[j] == ir[j - 1]);
            }
        }
        assert forall|i: int| 0 <= i < r.len() implies (#[trigger] r[i] == x || t.contains(r[i])) by {
            if i == 0 {
                assert(t[0] == r[0]);
            } else {
                assert(r[i] == ir[i - 1]);
                if ir[i - 1] != x {
                    let k = choose|k: int| 0 <= k < rest.len() && rest[k] == ir[i - 1];
                    assert(t[k + 1] == r[i]);
                }
            }
        }
        vstd::seq_lib::to_multiset_insert(rest, 0, t[0]);
        assert(rest.insert(0, t[0]) =~= t);
        vstd::seq_lib::to_multiset_insert(ir, 0, t[0]);
        assert(ir.insert(0, t[0]) =~= r);
        assert(r.to_multiset() =~= t.to_multiset().insert(x));
    } else {
        assert(r =~= t.insert(0, x));
        vstd::seq_lib::to_multiset_insert(t, 0, x);
        lemma_lex_total(t[0], x);
        assert forall|i: int, j: int| 0 <= i < j < r.len() implies lex_le(#[trigger] r[i], #[trigger] r[j]) by {
            if i == 0 {
                assert(r[j] == t[j - 1]);
                if j > 1 {
                    lemma_lex_trans(x, t[0], t[j - 1]);
                }
            } else {
                assert(r[i] == t[i - 1] && r[j] == t[j - 1]);
            }
        }
        assert forall|i: int| 0 <= i < r.len() implies (#[trigger] r[i] == x || t.contains(r[i])) by {
            if i > 0 {
                assert(r[i] == t[i - 1]);
            }
        }
    }
}

/// Every sequence of texts has a sorted arrangement, so `lex_sorted` is one.
pub proof fn lemma_lex_sorted(s: Seq<Seq<char>>)
    ensures
        sorted(lex_sorted(s)),
        lex_sorted(s).to_multiset() == s.to_multiset(),
        lex_sorted(s).len() == s.len(),
    decreases s.len(),
{
    broadcast use vstd::seq_lib::group_to_multiset_ensures;
    if s.len() == 0 {
        let e = Seq::<Seq<char>>::empty();
        assert(s =~= e);
        assert(sorted(e));
    } else {
        let init = s.drop_last();
        lemma_lex_sorted(init);
        let t = lex_sorted(init);
        lemma_insert_sorted(t, s.last());
        assert(init.push(s.last()) =~= s);
        assert(sorted(insert_sorted(t, s.last())) && insert_sorted(t, s.last()).to_multiset()
            == s.to_multiset());
    }
    lex_sorted(s).to_multiset_ensures();
    s.to_multiset_ensures();
}

/// Whether `a` comes no later than `b`.
pub fn lex_le_exec(a: &Vec<char>, b: &Vec<char>) -> (r: bool)
    ensures
        r == lex_le(a@, b@),
{
    let mut i: usize = 0;
    proof {
        assert(a@.skip(0) =~= a@);
        assert(b@.skip(0) =~= b@);
    }
    while i < a.len()
        invariant
            i <= a.len(),
            i <= b.len(),
            lex_le(a@, b@) == lex_le(a@.skip(i as int), b@.skip(i as int)),
        decreases a.len() - i,
    {
        proof {
            assert(a@.skip(i as int).drop_first() =~= a@.skip(i + 1));
        }
        if i == b.len() {
            return false;
        }
        proof {
            assert(b@.skip(i as int).drop_first() =~= b@.skip(i + 1));
        }
        let x = a[i];
        let y = b[i];
        if x != y {
            return (x as u32) < (y as u32);
        }
        i = i + 1;
    }
    true
}

/// Views commute with insertion.
proof fn lemma_views_insert(v: Seq<Vec<char>>, p: int, x: Vec<char>)
    requires
        0 <= p <= v.len(),
    ensures
        views(v.insert(p, x)) == views(v).insert(p, x@),
{
    assert(views(v.insert(p, x)) =~= views(v).insert(p, x@));
}

/// The elements of `v` in lexicographic order.
pub fn sort_lex(v: Vec<Vec<char>>) -> (r: Vec<Vec<char>>)
    ensures
        views(r@) == lex_sorted(views(v@)),
{
    let mut r: Vec<Vec<char>> = Vec::new();
    let mut i: usize = 0;
    proof {
        assert(views(v@.take(0)) =~= Seq::<Seq<char>>::empty());
        assert(views(r@) =~= Seq::<Seq<char>>::empty());
    }
    while i < v.len()
        invariant
            i <= v.len(),
            sorted(views(r@)),
            views(r@).to_multiset() == views(v@.take(i as int)).to_multiset(),
        decreases v.len() - i,
    {
        let x = v[i].clone();
        proof {
            assert(x@ == v@[i as int]@);
        }
        let mut p: usize = 0;
        while p < r.len() && lex_le_exec(&r[p], &x)
            invariant
                p <= r.len(),
                forall|k: int| 0 <= k < p ==> lex_le(#[trigger] views(r@)[k], x@),
            decreases r.len() - p,
        {
            p = p + 1;
        }
        proof {
            let s = views(r@);
            if p < r.len() {
                assert(!lex_le(s[p as int], x@));
                lemma_lex_total(s[p as int], x@);
                assert forall|k: int| p <= k < s.len() implies lex_le(x@, #[trigger] s[k]) by {
                    if k > p {
                        lemma_lex_trans(x@, s[p as int], s[k]);
                    }
                }
            }
            lemma_views_insert(r@, p as int, x);
            to_multiset_insert(s, p as int, x@);
            let t = s.insert(p as int, x@);
            assert forall|a: int, b: int| 0 <= a < b < t.len() implies lex_le(#[trigger] t[a], #[trigger] t[b]) by {
                if b < p {
                } else if a < p && b == p {
                } else if a < p {
                    assert(t[b] == s[b - 1]);
                } else if a == p {
                    assert(t[b] == s[b - 1]);
                } else {
                    assert(t[a] == s[a - 1]);
                    assert(t[b] == s[b - 1]);
                }
            }
            assert(v@.take(i + 1) =~= v@.take(i as int).push(v@[i as int]));
            assert(views(v@.take(i + 1)) =~= views(v@.take(i as int)).push(x@));
            assert(views(v@.take(i as int)).push(x@) =~= views(v@.take(i as int)).insert(views(v@.take(i as int)).len() as int, x@));
            to_multiset_insert(views(v@.take(i as int)), views(v@.take(i as int)).len() as int, x@);
        }
        r.insert(p, x);
        i = i + 1;
    }
    proof {
        assert(v@.take(v.len() as int) =~= v@);
        lemma_lex_sorted_is(views(v@), views(r@));
    }
    r
}

} // verus!
