//! A map keyed by package name.
//!
//! The names are a closed enumeration, so the map is a table with one slot
//! for each of them, in enumeration order.

use crate::name::{Name, NAME_COUNT};
use vstd::prelude::*;

verus! {

/// A map from package names to values of type `T`.
#[derive(Debug)]
pub struct NameMap<T> {
    slots: Vec<Option<T>>,
}

/// Whether a map holds a value for every package name.
pub open spec fn is_total<T>(map: Map<Name, T>) -> bool {
    forall|name: Name| map.dom().contains(name)
}

impl<T> View for NameMap<T> {
    type V = Map<Name, T>;

    closed spec fn view(&self) -> Map<Name, T> {
        Map::new(
            |name: Name| self.slots@[name.position()] is Some,
            |name: Name| self.slots@[name.position()]->0,
        )
    }
}

impl<T> NameMap<T> {
    #[verifier::type_invariant]
    spec fn inv(&self) -> bool {
        self.slots@.len() == NAME_COUNT
    }

    /// A map that holds no value.
    pub fn new() -> (map: NameMap<T>)
        ensures
            map@ == Map::<Name, T>::empty(),
    {
        let mut slots: Vec<Option<T>> = Vec::new();
        let mut i: usize = 0;
        while i < NAME_COUNT
            invariant
                i <= NAME_COUNT,
                slots@.len() == i,
                forall|j: int| 0 <= j < i ==> slots@[j] is None,
            decreases NAME_COUNT - i,
        {
            slots.push(None);
            i = i + 1;
        }
        let map = NameMap { slots };
        assert(map@ =~= Map::<Name, T>::empty());
        map
    }

    /// Puts `value` under `name`, in place of what was there.
    pub fn insert(&mut self, name: Name, value: T)
        ensures
            final(self)@ == old(self)@.insert(name, value),
    {
        proof {
            use_type_invariant(&*self);
        }
        let ghost before = self@;
        let i = name.index();
        self.slots[i] = Some(value);
        assert(self@ =~= before.insert(name, value));
    }

    /// The value under `name`, if there is one.
    pub fn get(&self, name: &Name) -> (found: Option<&T>)
        ensures
            self@.dom().contains(*name) ==> found == Some(&self@[*name]),
            !self@.dom().contains(*name) ==> found is None,
    {
        proof {
            use_type_invariant(self);
        }
        self.slots[name.index()].as_ref()
    }

    /// Whether the map holds a value under `name`.
    pub fn contains_key(&self, name: &Name) -> (found: bool)
        ensures
            found == self@.dom().contains(*name),
    {
        proof {
            use_type_invariant(self);
        }
        self.slots[name.index()].is_some()
    }

    /// The names with their values, in enumeration order.
    pub fn entries(&self) -> (list: Vec<(Name, &T)>)
        ensures
            is_listing(list@, self@),
    {
        proof {
            use_type_invariant(self);
        }
        let mut list: Vec<(Name, &T)> = Vec::new();
        let mut i: usize = 0;
        while i < NAME_COUNT
            invariant
                i <= NAME_COUNT,
                self.slots@.len() == NAME_COUNT,
                forall|k: int|
                    0 <= k < list@.len() ==> (#[trigger] list@[k]).0.position() < i
                        && self@.dom().contains(list@[k].0) && *list@[k].1 == self@[list@[k].0],
                forall|j: int, k: int|
                    0 <= j < k < list@.len() ==> (#[trigger] list@[j]).0.position() < (
                    #[trigger] list@[k]).0.position(),
                forall|name: Name|
                    self@.dom().contains(name) && name.position() < i ==> exists|k: int|
                        0 <= k < list@.len() && (#[trigger] list@[k]).0 == name,
            decreases NAME_COUNT - i,
        {
            let ghost before = list@;
            match &self.slots[i] {
                Some(value) => {
                    let name = match Name::from_index(i) {
                        Some(name) => name,
                        None => vstd::pervasive::unreached(),
                    };
                    list.push((name, value));
                    assert(list@[before.len() as int].0 == name);
                    assert forall|other: Name|
                        self@.dom().contains(other) && other.position() < i + 1 implies exists|
                        k: int,
                    |
                        0 <= k < list@.len() && (#[trigger] list@[k]).0 == other by {
                        if other.position() < i {
                            let k = choose|k: int|
                                0 <= k < before.len() && (#[trigger] before[k]).0 == other;
                            assert(list@[k].0 == other);
                        } else {
                            assert(other == name);
                        }
                    }
                },
                None => {
                    assert forall|other: Name|
                        self@.dom().contains(other) && other.position() < i + 1 implies exists|
                        k: int,
                    |
                        0 <= k < list@.len() && (#[trigger] list@[k]).0 == other by {
                        assert(other.position() < i);
                    }
                },
            }
            i = i + 1;
        }
        list
    }
}

/// Whether `list` holds the entries of `map`, each once, in enumeration
/// order.
pub open spec fn is_listing<T>(list: Seq<(Name, &T)>, map: Map<Name, T>) -> bool {
    &&& forall|k: int|
        0 <= k < list.len() ==> map.dom().contains((#[trigger] list[k]).0) && *list[k].1
            == map[list[k].0]
    &&& forall|j: int, k: int|
        0 <= j < k < list.len() ==> (#[trigger] list[j]).0.position() < (
        #[trigger] list[k]).0.position()
    &&& forall|name: Name|
        map.dom().contains(name) ==> exists|k: int|
            0 <= k < list.len() && (#[trigger] list[k]).0 == name
}

/// A map has one listing only: listing it again gives the same entries in
/// the same order.
pub proof fn lemma_listing_is_unique<T>(a: Seq<(Name, &T)>, b: Seq<(Name, &T)>, map: Map<Name, T>)
    requires
        is_listing(a, map),
        is_listing(b, map),
    ensures
        a == b,
{
    lemma_listing_not_longer(a, b, map);
    lemma_listing_not_longer(b, a, map);
    assert forall|k: int| 0 <= k < a.len() implies a[k] == b[k] by {
        lemma_listings_agree(a, b, map, k);
    }
    assert(a =~= b);
}

/// Two listings of one map hold the same name at every index that both have.
proof fn lemma_listings_agree<T>(a: Seq<(Name, &T)>, b: Seq<(Name, &T)>, map: Map<Name, T>, k: int)
    requires
        is_listing(a, map),
        is_listing(b, map),
        0 <= k < a.len(),
        k < b.len(),
    ensures
        a[k].0 == b[k].0,
    decreases k,
{
    if a[k].0 != b[k].0 {
        if a[k].0.position() < b[k].0.position() {
            let j = choose|j: int| 0 <= j < b.len() && (#[trigger] b[j]).0 == a[k].0;
            assert(j < k) by {
                if j > k {
                    assert(b[k].0.position() < b[j].0.position());
                }
            }
            lemma_listings_agree(a, b, map, j);
            assert(a[j].0.position() < a[k].0.position());
        } else {
            let j = choose|j: int| 0 <= j < a.len() && (#[trigger] a[j]).0 == b[k].0;
            assert(j < k) by {
                if j > k {
                    assert(a[k].0.position() < a[j].0.position());
                }
            }
            lemma_listings_agree(a, b, map, j);
            assert(b[j].0.position() < b[k].0.position());
        }
    }
}

/// Of two listings of one map the second is not longer than the first.
proof fn lemma_listing_not_longer<T>(a: Seq<(Name, &T)>, b: Seq<(Name, &T)>, map: Map<Name, T>)
    requires
        is_listing(a, map),
        is_listing(b, map),
    ensures
        b.len() <= a.len(),
{
    if a.len() < b.len() {
        let extra = b[a.len() as int].0;
        let j = choose|j: int| 0 <= j < a.len() && (#[trigger] a[j]).0 == extra;
        lemma_listings_agree(a, b, map, j);
        assert(b[j].0.position() < b[a.len() as int].0.position());
    }
}

} // verus!
