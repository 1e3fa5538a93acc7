use vstd::prelude::*;
use vstd::std_specs::cmp::PartialEqSpec;

use crate::equiv::{after_or_insert, eq_laws, holds, unique};

verus! {

/// Storing a value that the set does not hold adds exactly one slot, after
/// which the set holds the value and still has no two equivalent values.
pub proof fn lemma_insert_new_value<T: PartialEq>(s: Seq<T>, v: T)
    requires
        eq_laws::<T>(),
        unique(s),
        !holds(s, v),
    ensures
        holds(s.push(v), v),
        s.push(v).len() == s.len() + 1,
        unique(s.push(v)),
{
    let t = s.push(v);
    assert(v.eq_spec(&t[s.len() as int]));
    assert forall|i: int, j: int|
            #![trigger t[i], t[j]]
            0 <= i < t.len() && 0 <= j < t.len() && i != j implies !t[i].eq_spec(&t[j]) by {
        if i == s.len() {
            assert(!v.eq_spec(&s[j]));
        } else if j == s.len() {
            if s[i].eq_spec(&v) {
                assert(v.eq_spec(&s[i]));
            }
        } else {
            assert(t[i] == s[i] && t[j] == s[j]);
        }
    }
}

/// Making sure that a held value is stored leaves the slots as they are,
/// whether it is asked with the queried value or with the stored one.
pub proof fn lemma_or_insert_present<T: PartialEq>(s: Seq<T>, v: T, i: int)
    requires
        eq_laws::<T>(),
        0 <= i < s.len(),
        v.eq_spec(&s[i]),
    ensures
        after_or_insert(s, v) == s,
        after_or_insert(s, s[i]) == s,
{
    assert(s[i].eq_spec(&s[i]));
}

/// Making sure twice that a value is stored changes the slots as once does.
pub proof fn lemma_or_insert_idempotent<T: PartialEq>(s: Seq<T>, v: T)
    requires
        eq_laws::<T>(),
    ensures
        after_or_insert(after_or_insert(s, v), v) == after_or_insert(s, v),
{
    if !holds(s, v) {
        assert(v.eq_spec(&s.push(v)[s.len() as int]));
    }
}

/// Storing a new value in a fresh slot and then taking that slot out gives
/// the value back and leaves the set as it was, without the value.
pub proof fn lemma_insert_then_remove<T: PartialEq>(s: Seq<T>, v: T)
    requires
        !holds(s, v),
    ensures
        s.push(v)[s.len() as int] == v,
        s.push(v).remove(s.len() as int) == s,
        !holds(s.push(v).remove(s.len() as int), v),
{
    assert(s.push(v).remove(s.len() as int) =~= s);
}

/// After the slot `i`, which holds a value equivalent to `v`, is given `v`,
/// the set still has no two equivalent values, and every value `w` equivalent
/// to `v` is found at slot `i` alone, which holds `v`.
pub proof fn lemma_replace_equivalent<T: PartialEq>(s: Seq<T>, i: int, v: T, w: T)
    requires
        eq_laws::<T>(),
        unique(s),
        0 <= i < s.len(),
        v.eq_spec(&s[i]),
        w.eq_spec(&v),
    ensures
        unique(s.update(i, v)),
        holds(s.update(i, v), w),
        forall|j: int|
            0 <= j < s.len() && w.eq_spec(&#[trigger] s.update(i, v)[j]) ==> j == i,
        s.update(i, v)[i] == v,
{
    let t = s.update(i, v);
    assert(t[i] == v);
    assert(w.eq_spec(&t[i]));
    assert forall|a: int, b: int|
            #![trigger t[a], t[b]]
            0 <= a < t.len() && 0 <= b < t.len() && a != b implies !t[a].eq_spec(&t[b]) by {
        if a == i {
            if v.eq_spec(&s[b]) {
                assert(s[i].eq_spec(&v));
                assert(s[i].eq_spec(&s[b]));
            }
        } else if b == i {
            if s[a].eq_spec(&v) {
                assert(s[a].eq_spec(&s[i]));
            }
        } else {
            assert(t[a] == s[a] && t[b] == s[b]);
        }
    }
    assert forall|j: int| 0 <= j < s.len() && w.eq_spec(&#[trigger] t[j]) implies j == i by {
        if j != i {
            assert(v.eq_spec(&w));
            assert(v.eq_spec(&t[j]));
            assert(t[i].eq_spec(&t[j]));
        }
    }
}

} // verus!
