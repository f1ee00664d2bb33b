//! Stable sorting by a ranking, and the order of texts.
use vstd::prelude::*;
use vstd::seq_lib::to_multiset_insert;

verus! {

/// A ranking: which of two values must stand first.
pub trait Ranked: Sized {
    /// Whether `self` must stand before `other`.
    spec fn precedes(&self, other: &Self) -> bool;

    /// Whether `self` must stand before `other`.
    fn comes_before(&self, other: &Self) -> (before: bool)
        ensures
            before == self.precedes(other),
    ;

    /// The ranking is a strict weak order.
    proof fn lemma_strict_weak_order(a: &Self, b: &Self, c: &Self)
        ensures
            !a.precedes(a),
            a.precedes(b) ==> !b.precedes(a),
            !a.precedes(b) && !b.precedes(c) ==> !a.precedes(c),
    ;
}

/// Whether no value of `s` must stand before an earlier one.
pub open spec fn ordered<T: Ranked>(s: Seq<T>) -> bool {
    forall|i: int, j: int|
        #![trigger s[i], s[j]]
        0 <= i < j < s.len() ==> !s[j].precedes(&s[i])
}

/// Number of leading values of `s` that must stand before `x`.
pub open spec fn front_slot<T: Ranked>(s: Seq<T>, x: T) -> int
    decreases s.len(),
{
    if s.len() > 0 && s.first().precedes(&x) {
        1 + front_slot(s.drop_first(), x)
    } else {
        0
    }
}

/// `s` with `x` put behind the leading values that must stand before it.
pub open spec fn placed<T: Ranked>(x: T, s: Seq<T>) -> Seq<T> {
    s.insert(front_slot(s, x), x)
}

/// `items` sorted by rank. Values of which neither must stand before the
/// other keep the order that they have in `items`.
pub open spec fn stable_sorted<T: Ranked>(items: Seq<T>) -> Seq<T>
    decreases items.len(),
{
    if items.len() == 0 {
        Seq::empty()
    } else {
        placed(items.first(), stable_sorted(items.drop_first()))
    }
}

/// The slot lies within the sequence; what stands before it must stand
/// before `x`, and what stands at it need not.
pub proof fn lemma_front_slot<T: Ranked>(s: Seq<T>, x: T)
    ensures
        0 <= front_slot(s, x) <= s.len(),
        forall|i: int| 0 <= i < front_slot(s, x) ==> (#[trigger] s[i]).precedes(&x),
        front_slot(s, x) < s.len() ==> !s[front_slot(s, x)].precedes(&x),
    decreases s.len(),
{
    if s.len() > 0 && s.first().precedes(&x) {
        let rest = s.drop_first();
        lemma_front_slot(rest, x);
        assert forall|i: int| 0 <= i < front_slot(s, x) implies (#[trigger] s[i]).precedes(&x) by {
            if i > 0 {
                assert(s[i] == rest[i - 1]);
            }
        }
        if front_slot(s, x) < s.len() {
            assert(s[front_slot(s, x)] == rest[front_slot(rest, x)]);
        }
    }
}

/// Placing a value into an ordered sequence leaves it ordered.
pub proof fn lemma_placed_ordered<T: Ranked>(x: T, s: Seq<T>)
    requires
        ordered(s),
    ensures
        ordered(placed(x, s)),
        placed(x, s).to_multiset() == s.to_multiset().insert(x),
        placed(x, s).len() == s.len() + 1,
{
    lemma_front_slot(s, x);
    let p = front_slot(s, x);
    let out = placed(x, s);
    to_multiset_insert(s, p, x);
    assert forall|i: int, j: int|
        #![trigger out[i], out[j]]
        0 <= i < j < out.len() implies !out[j].precedes(&out[i]) by {
        if j == p {
            assert(out[i] == s[i]);
            T::lemma_strict_weak_order(&s[i], &x, &x);
        } else if i == p {
            assert(out[j] == s[j - 1]);
            if j - 1 > p {
                assert(!s[j - 1].precedes(&s[p]));
            }
            T::lemma_strict_weak_order(&s[j - 1], &s[p], &x);
        } else {
            let a = if i < p {
                i
            } else {
                i - 1
            };
            let b = if j < p {
                j
            } else {
                j - 1
            };
            assert(out[i] == s[a]);
            assert(out[j] == s[b]);
            assert(!s[b].precedes(&s[a]));
        }
    }
}

/// Sorting orders the values and neither adds nor drops one.
pub proof fn lemma_stable_sorted<T: Ranked>(items: Seq<T>)
    ensures
        ordered(stable_sorted(items)),
        stable_sorted(items).to_multiset() == items.to_multiset(),
        stable_sorted(items).len() == items.len(),
    decreases items.len(),
{
    broadcast use vstd::multiset::group_multiset_axioms;

    if items.len() == 0 {
        assert(items =~= Seq::<T>::empty());
    } else {
        let rest = items.drop_first();
        lemma_stable_sorted(rest);
        lemma_placed_ordered(items.first(), stable_sorted(rest));
        assert(items =~= rest.insert(0, items.first()));
        to_multiset_insert(rest, 0, items.first());
    }
}

/// Sorts `items` by rank. The sort is stable.
pub fn stable_sort<T: Ranked>(items: Vec<T>) -> (out: Vec<T>)
    ensures
        out@ == stable_sorted(items@),
        ordered(out@),
        out@.to_multiset() == items@.to_multiset(),
{
    let ghost all = items@;
    let mut items = items;
    let mut out: Vec<T> = Vec::new();
    proof {
        assert(all.subrange(all.len() as int, all.len() as int) =~= Seq::<T>::empty());
    }
    while items.len() > 0
        invariant
            items@ == all.subrange(0, items@.len() as int),
            items@.len() <= all.len(),
            out@ == stable_sorted(all.subrange(items@.len() as int, all.len() as int)),
        decreases items.len(),
    {
        let ghost k = items@.len() as int;
        let x = items.pop().unwrap();
        let mut p: usize = 0;
        proof {
            assert(out@.subrange(0, out@.len() as int) =~= out@);
            lemma_stable_sorted(all.subrange(k, all.len() as int));
        }
        while p < out.len() && out[p].comes_before(&x)
            invariant
                0 <= p <= out@.len(),
                front_slot(out@, x) == p + front_slot(out@.subrange(p as int, out@.len() as int), x),
            decreases out.len() - p,
        {
            proof {
                let rest = out@.subrange(p as int, out@.len() as int);
                assert(rest.first() == out@[p as int]);
                assert(rest.drop_first() =~= out@.subrange(p + 1, out@.len() as int));
            }
            p = p + 1;
        }
        proof {
            let rest = out@.subrange(p as int, out@.len() as int);
            if p < out@.len() {
                assert(rest.first() == out@[p as int]);
            }
            assert(front_slot(rest, x) == 0);
            let tail = all.subrange(k - 1, all.len() as int);
            assert(tail.first() == x);
            assert(tail.drop_first() =~= all.subrange(k, all.len() as int));
            assert(items@ =~= all.subrange(0, k - 1));
        }
        out.insert(p, x);
    }
    proof {
        assert(all.subrange(0, all.len() as int) =~= all);
        lemma_stable_sorted(all);
    }
    out
}

/// Whether `a` stands before `b` in the order of a dictionary, byte by
/// byte. This is how texts compare.
pub open spec fn lex_less(a: Seq<u8>, b: Seq<u8>) -> bool
    decreases a.len(),
{
    if b.len() == 0 {
        false
    } else if a.len() == 0 {
        true
    } else if a.first() != b.first() {
        a.first() < b.first()
    } else {
        lex_less(a.drop_first(), b.drop_first())
    }
}

/// Nothing stands before itself.
pub proof fn lemma_lex_irreflexive(a: Seq<u8>)
    ensures
        !lex_less(a, a),
    decreases a.len(),
{
    if a.len() > 0 {
        lemma_lex_irreflexive(a.drop_first());
    }
}

/// Of two different texts exactly one stands before the other.
pub proof fn lemma_lex_total(a: Seq<u8>, b: Seq<u8>)
    ensures
        a != b ==> (lex_less(a, b) <==> !lex_less(b, a)),
        a == b ==> !lex_less(a, b),
    decreases a.len(),
{
    lemma_lex_irreflexive(a);
    if a.len() > 0 && b.len() > 0 && a.first() == b.first() {
        lemma_lex_total(a.drop_first(), b.drop_first());
        if a.drop_first() == b.drop_first() {
            assert(a =~= seq![a.first()] + a.drop_first());
            assert(b =~= seq![b.first()] + b.drop_first());
        }
    } else if a.len() == 0 && b.len() == 0 {
        assert(a =~= b);
    }
}

/// The order is transitive.
pub proof fn lemma_lex_transitive(a: Seq<u8>, b: Seq<u8>, c: Seq<u8>)
    requires
        lex_less(a, b),
        lex_less(b, c),
    ensures
        lex_less(a, c),
    decreases a.len(),
{
    if a.len() > 0 && a.first() == b.first() && b.first() == c.first() {
        lemma_lex_transitive(a.drop_first(), b.drop_first(), c.drop_first());
    }
}

/// The order is a strict weak order.
pub proof fn lemma_lex_strict_weak_order(a: Seq<u8>, b: Seq<u8>, c: Seq<u8>)
    ensures
        !lex_less(a, a),
        lex_less(a, b) ==> !lex_less(b, a),
        !lex_less(a, b) && !lex_less(b, c) ==> !lex_less(a, c),
{
    lemma_lex_irreflexive(a);
    lemma_lex_total(a, b);
    lemma_lex_total(b, c);
    lemma_lex_total(a, c);
    if !lex_less(a, b) && !lex_less(b, c) && lex_less(a, c) {
        if a == b {
        } else if b == c {
        } else {
            lemma_lex_transitive(c, b, a);
            lemma_lex_total(c, a);
        }
    }
}

/// Whether `a` stands before `b` in the order of a dictionary.
pub fn bytes_less(a: &[u8], b: &[u8]) -> (less: bool)
    ensures
        less == lex_less(a@, b@),
{
    let mut i: usize = 0;
    proof {
        assert(a@.subrange(0, a@.len() as int) =~= a@);
        assert(b@.subrange(0, b@.len() as int) =~= b@);
    }
    while i < a.len() && i < b.len()
        invariant
            0 <= i <= a@.len(),
            i <= b@.len(),
            lex_less(a@, b@) == lex_less(
                a@.subrange(i as int, a@.len() as int),
                b@.subrange(i as int, b@.len() as int),
            ),
        decreases a.len() - i,
    {
        let ghost x = a@.subrange(i as int, a@.len() as int);
        let ghost y = b@.subrange(i as int, b@.len() as int);
        proof {
            assert(x.first() == a@[i as int]);
            assert(y.first() == b@[i as int]);
            assert(x.drop_first() =~= a@.subrange(i + 1, a@.len() as int));
            assert(y.drop_first() =~= b@.subrange(i + 1, b@.len() as int));
        }
        if a[i] != b[i] {
            return a[i] < b[i];
        }
        i = i + 1;
    }
    i < b.len()
}

} // verus!
