use vstd::prelude::*;
use vstd::std_specs::cmp::PartialEqSpec;

use crate::equiv::{after_or_insert, eq_laws, holds, unique};

verus! {

/// A set of values, stored one per slot. Two values are the same member when
/// `==` says so; no two slots hold equivalent values.
pub struct HashSet<T> {
    slots: Vec<T>,
}

impl<T> View for HashSet<T> {
    type V = Seq<T>;

    /// The stored values, in slot order.
    closed spec fn view(&self) -> Seq<T> {
        self.slots@
    }
}

impl<T: PartialEq> HashSet<T> {
    pub open spec fn wf(&self) -> bool {
        unique(self@)
    }

    /// An empty set.
    pub fn new() -> (r: Self)
        ensures
            r@ == Seq::<T>::empty(),
            r.wf(),
    {
        HashSet { slots: Vec::new() }
    }

    /// The number of values in the set.
    pub fn len(&self) -> (r: usize)
        ensures
            r == self@.len(),
    {
        self.slots.len()
    }

    /// Whether the set holds a value equivalent to `value`.
    pub fn contains(&self, value: &T) -> (r: bool)
        requires
            T::obeys_eq_spec(),
        ensures
            r == holds(self@, *value),
    {
        let mut i: usize = 0;
        while i < self.slots.len()
            invariant
                T::obeys_eq_spec(),
                0 <= i <= self@.len(),
                forall|k: int| 0 <= k < i ==> !value.eq_spec(&#[trigger] self@[k]),
            decreases self@.len() - i,
        {
            if value.eq(&self.slots[i]) {
                return true;
            }
            i = i + 1;
        }
        false
    }

    /// The entry for `value`: occupied at the slot that holds a value
    /// equivalent to it, or vacant and holding `value`. The set is searched
    /// once; what the entry then does needs no further search.
    pub fn rustc_entry(&mut self, value: T) -> (r: RustcEntry<'_, T>)
        requires
            old(self).wf(),
            eq_laws::<T>(),
        ensures
            r.wf(),
            r.slots() == old(self)@,
            (r is Occupied) == holds(old(self)@, value),
            match r {
                RustcEntry::Occupied(o) => {
                    &&& o.key == Some(value)
                    &&& *final(self) == *final(o.table)
                },
                RustcEntry::Vacant(v) => {
                    &&& v.value == value
                    &&& *final(self) == *final(v.table)
                },
            },
    {
        let mut i: usize = 0;
        while i < self.slots.len()
            invariant
                eq_laws::<T>(),
                self.wf(),
                self@ == old(self)@,
                0 <= i <= self@.len(),
                forall|k: int| 0 <= k < i ==> !value.eq_spec(&#[trigger] self@[k]),
            decreases self@.len() - i,
        {
            if value.eq(&self.slots[i]) {
                return RustcEntry::Occupied(
                    RustcOccupiedEntry { table: self, index: i, key: Some(value) },
                );
            }
            i = i + 1;
        }
        RustcEntry::Vacant(RustcVacantEntry { table: self, value })
    }
}

/// A handle on one value's place in a set: occupied or vacant.
pub enum RustcEntry<'a, T> {
    Occupied(RustcOccupiedEntry<'a, T>),
    Vacant(RustcVacantEntry<'a, T>),
}

/// A handle on a slot of a set that holds a value.
pub struct RustcOccupiedEntry<'a, T> {
    /// The set, borrowed for the handle's lifetime.
    pub table: &'a mut HashSet<T>,
    /// The slot found by the lookup.
    pub index: usize,
    /// The value that the lookup was made with, while the handle still has it.
    pub key: Option<T>,
}

/// A handle on a value that the set does not hold yet.
pub struct RustcVacantEntry<'a, T> {
    /// The set, borrowed for the handle's lifetime.
    pub table: &'a mut HashSet<T>,
    /// The value that the lookup was made with.
    pub value: T,
}

impl<'a, T: PartialEq> RustcEntry<'a, T> {
    pub open spec fn wf(&self) -> bool {
        match self {
            RustcEntry::Occupied(o) => o.wf(),
            RustcEntry::Vacant(v) => v.wf(),
        }
    }

    /// The set's slots while the entry is alive.
    pub open spec fn slots(&self) -> Seq<T> {
        match self {
            RustcEntry::Occupied(o) => o.table@,
            RustcEntry::Vacant(v) => v.table@,
        }
    }

    /// The value that `get` returns.
    pub open spec fn value(&self) -> T {
        match self {
            RustcEntry::Occupied(o) => o.stored(),
            RustcEntry::Vacant(v) => v.value,
        }
    }

    /// Stores the value if the entry is vacant, and returns an occupied entry.
    pub fn insert(self) -> (r: RustcOccupiedEntry<'a, T>)
        requires
            self.wf(),
        ensures
            r.wf(),
            match self {
                RustcEntry::Occupied(o) => r == o,
                RustcEntry::Vacant(v) => {
                    &&& r.table@ == v.table@.push(v.value)
                    &&& r.index == v.table@.len()
                    &&& r.key is None
                    &&& *final(r.table) == *final(v.table)
                },
            },
    {
        match self {
            RustcEntry::Occupied(entry) => entry,
            RustcEntry::Vacant(entry) => entry.insert_entry(),
        }
    }

    /// Makes sure that the set holds the value: stores it if the entry is
    /// vacant and leaves the set as it is if occupied.
    pub fn or_insert(self)
        requires
            self.wf(),
        ensures
            match self {
                RustcEntry::Occupied(o) => *final(o.table) == *o.table,
                RustcEntry::Vacant(v) => (*final(v.table))@ == v.table@.push(v.value),
            },
            match self {
                RustcEntry::Occupied(o) => (*final(o.table))@ == after_or_insert(
                    o.table@,
                    self.value(),
                ),
                RustcEntry::Vacant(v) => (*final(v.table))@ == after_or_insert(
                    v.table@,
                    self.value(),
                ),
            },
    {
        match self {
            RustcEntry::Occupied(_) => {},
            RustcEntry::Vacant(entry) => {
                entry.insert();
            },
        }
    }

    /// The entry's value: the stored one if occupied, the queried one if vacant.
    pub fn get(&self) -> (r: &T)
        requires
            self.wf(),
        ensures
            *r == self.value(),
    {
        match self {
            RustcEntry::Occupied(entry) => entry.get(),
            RustcEntry::Vacant(entry) => entry.get(),
        }
    }
}

impl<'a, T: PartialEq> RustcOccupiedEntry<'a, T> {
    pub open spec fn wf(&self) -> bool {
        &&& eq_laws::<T>()
        &&& self.table.wf()
        &&& 0 <= self.index < self.table@.len()
        &&& (self.key matches Some(k) ==> k.eq_spec(&self.table@[self.index as int]))
    }

    /// The value in the entry's slot.
    pub open spec fn stored(&self) -> T {
        self.table@[self.index as int]
    }

    /// The value stored in the entry's slot.
    pub fn get(&self) -> (r: &T)
        requires
            self.wf(),
        ensures
            *r == self.stored(),
    {
        &self.table.slots[self.index]
    }

    /// Takes the value out of the set and returns it.
    pub fn remove(self) -> (r: T)
        requires
            self.wf(),
        ensures
            r == self.stored(),
            (*final(self.table))@ == old(self.table)@.remove(self.index as int),
            (*final(self.table)).wf(),
    {
        let RustcOccupiedEntry { table, index, key: _ } = self;
        let r = table.slots.remove(index);
        proof {
            let s = self.table@;
            let t = table@;
            assert forall|i: int, j: int|
            #![trigger t[i], t[j]]
            0 <= i < t.len() && 0 <= j < t.len() && i != j implies !t[i].eq_spec(&t[j]) by {
                let i0 = if i < index { i } else { i + 1 };
                let j0 = if j < index { j } else { j + 1 };
                assert(t[i] == s[i0] && t[j] == s[j0]);
            }
        }
        r
    }

    /// Puts the value that the lookup was made with into the slot, and
    /// returns the value that was stored there.
    pub fn replace(self) -> (r: T)
        requires
            self.wf(),
            self.key is Some,
        ensures
            r == self.stored(),
            (*final(self.table))@ == old(self.table)@.update(self.index as int, self.key->Some_0),
            (*final(self.table)).wf(),
    {
        let RustcOccupiedEntry { table, index, key } = self;
        let mut k = key.unwrap();
        table.slots.set_and_swap(index, &mut k);
        k
    }
}

impl<'a, T: PartialEq> RustcVacantEntry<'a, T> {
    pub open spec fn wf(&self) -> bool {
        &&& eq_laws::<T>()
        &&& self.table.wf()
        &&& !holds(self.table@, self.value)
    }

    /// The value that inserting would store.
    pub fn get(&self) -> (r: &T)
        ensures
            *r == self.value,
    {
        &self.value
    }

    /// Gives the value back without storing it; the set is left as it is.
    pub fn into_value(self) -> (r: T)
        ensures
            r == self.value,
            *final(self.table) == *old(self.table),
    {
        self.value
    }

    /// Stores the value in the set.
    pub fn insert(self)
        requires
            self.wf(),
        ensures
            (*final(self.table))@ == old(self.table)@.push(self.value),
            (*final(self.table)).wf(),
    {
        let RustcVacantEntry { table, value } = self;
        table.slots.push(value);
        proof {
            crate::laws::lemma_insert_new_value(self.table@, self.value);
        }
    }

    /// Stores the value in the set and returns an occupied entry on its slot.
    pub fn insert_entry(self) -> (r: RustcOccupiedEntry<'a, T>)
        requires
            self.wf(),
        ensures
            r.wf(),
            r.table@ == old(self.table)@.push(self.value),
            r.index == old(self.table)@.len(),
            r.key is None,
            *final(r.table) == *final(self.table),
    {
        let RustcVacantEntry { table, value } = self;
        table.slots.push(value);
        proof {
            crate::laws::lemma_insert_new_value(self.table@, self.value);
        }
        let index = table.slots.len() - 1;
        RustcOccupiedEntry { table, index, key: None }
    }
}

} // verus!
