use vstd::prelude::*;
use vstd::std_specs::cmp::PartialEqSpec;

verus! {

/// `==` on `T` is specified by `eq_spec` and is an equivalence relation,
/// as `Eq` documents.
pub open spec fn eq_laws<T: PartialEq>() -> bool {
    &&& T::obeys_eq_spec()
    &&& forall|a: T| #[trigger] a.eq_spec(&a)
    &&& forall|a: T, b: T| #[trigger] a.eq_spec(&b) ==> b.eq_spec(&a)
    &&& forall|a: T, b: T, c: T|
        #[trigger] a.eq_spec(&b) && #[trigger] b.eq_spec(&c) ==> a.eq_spec(&c)
}

/// Some slot of `s` holds a value equivalent to `v`.
pub open spec fn holds<T: PartialEq>(s: Seq<T>, v: T) -> bool {
    exists|i: int| 0 <= i < s.len() && v.eq_spec(&#[trigger] s[i])
}

/// No two slots of `s` hold equivalent values.
pub open spec fn unique<T: PartialEq>(s: Seq<T>) -> bool {
    forall|i: int, j: int|
        #![trigger s[i], s[j]]
        0 <= i < s.len() && 0 <= j < s.len() && i != j ==> !s[i].eq_spec(&s[j])
}

/// The slots after making sure that a value equivalent to `v` is stored.
pub open spec fn after_or_insert<T: PartialEq>(s: Seq<T>, v: T) -> Seq<T> {
    if holds(s, v) {
        s
    } else {
        s.push(v)
    }
}

} // verus!
