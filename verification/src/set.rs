//! Sets of entities, ordered by UUID and holding each UUID once.

use crate::entity::{uuid_of, Entity};
use crate::order::{
    collected, found, has_uuid, inserted, lemma_rank_is_place, ordered, rank, trees, views,
};
use crate::tree::{forest_order, Order};
use vstd::prelude::*;
use core::cmp::Ordering;
use vstd::std_specs::cmp::{PartialEqSpecImpl, PartialOrdSpecImpl};

verus! {

/// A set of entities in ascending order of UUID, no UUID twice.
#[derive(Debug)]
pub struct UuidSet<T: Entity> {
    items: Vec<T>,
}

impl<T: Entity> View for UuidSet<T> {
    type V = Seq<T::V>;

    closed spec fn view(&self) -> Seq<T::V> {
        views::<T>(self.items@)
    }
}

impl<T: Entity> Clone for UuidSet<T> {
    fn clone(&self) -> (copy: Self)
        ensures
            copy@ == self@,
    {
        self.duplicate()
    }
}

impl<T: Entity> PartialEq for UuidSet<T> {
    /// `==` is UUID-based equality.
    fn eq(&self, other: &Self) -> (equal: bool) {
        self.same(other)
    }
}

impl<T: Entity> PartialEqSpecImpl for UuidSet<T> {
    open spec fn obeys_eq_spec() -> bool {
        true
    }

    open spec fn eq_spec(&self, other: &Self) -> bool {
        trees::<T>(self@) == trees::<T>(other@)
    }
}

impl<T: Entity> PartialOrd for UuidSet<T> {
    /// `<` is the order of sequences of UUID trees.
    fn partial_cmp(&self, other: &Self) -> (order: Option<Ordering>) {
        Some(self.compare(other).to_ordering())
    }
}

impl<T: Entity> PartialOrdSpecImpl for UuidSet<T> {
    open spec fn obeys_partial_cmp_spec() -> bool {
        true
    }

    open spec fn partial_cmp_spec(&self, other: &Self) -> Option<Ordering> {
        Some(forest_order(trees::<T>(self@), trees::<T>(other@)).ordering())
    }
}

impl<T: Entity> UuidSet<T> {
    #[verifier::type_invariant]
    spec fn well_formed(self) -> bool {
        ordered::<T>(self@)
    }

    /// The empty set.
    pub fn new() -> (set: Self)
        ensures
            set@ == Seq::<T::V>::empty(),
    {
        let set = UuidSet { items: Vec::new() };
        set
    }

    /// The number of entities.
    pub fn len(&self) -> (n: usize)
        ensures
            n == self@.len(),
            ordered::<T>(self@),
    {
        proof {
            use_type_invariant(self);
        }
        self.items.len()
    }

    /// Whether the set holds nothing.
    pub fn is_empty(&self) -> (empty: bool)
        ensures
            empty == (self@.len() == 0),
    {
        self.items.len() == 0
    }

    /// The `index`-th entity in ascending order of UUID.
    pub fn nth(&self, index: usize) -> (item: Option<&T>)
        ensures
            index < self@.len() ==> item.is_some() && item.unwrap()@ == self@[index as int],
            index >= self@.len() ==> item.is_none(),
    {
        if index < self.items.len() {
            Some(&self.items[index])
        } else {
            None
        }
    }

    /// The first position whose entity has a UUID of at least `id`.
    fn lower_bound(&self, id: u128) -> (p: usize)
        ensures
            p <= self@.len(),
            p == rank::<T>(self@, id),
            forall|i: int| 0 <= i < p ==> uuid_of::<T>(#[trigger] self@[i]) < id,
            forall|i: int| p <= i < self@.len() ==> uuid_of::<T>(#[trigger] self@[i]) >= id,
            has_uuid::<T>(self@, id) <==> (p < self@.len() && uuid_of::<T>(self@[p as int]) == id),
    {
        proof {
            use_type_invariant(self);
        }
        let mut low: usize = 0;
        let mut high: usize = self.items.len();
        while low < high
            invariant
                0 <= low <= high <= self.items.len(),
                self@.len() == self.items.len(),
                ordered::<T>(self@),
                forall|i: int| 0 <= i < low ==> uuid_of::<T>(#[trigger] self@[i]) < id,
                forall|i: int| high <= i < self@.len() ==> uuid_of::<T>(#[trigger] self@[i]) >= id,
            decreases high - low,
        {
            let middle = low + (high - low) / 2;
            let here = self.items[middle].uuid_value();
            assert(self@[middle as int] == self.items[middle as int]@);
            if here < id {
                low = middle + 1;
            } else {
                high = middle;
            }
        }
        proof {
            lemma_rank_is_place::<T>(self@, id, low as int);
        }
        low
    }

    /// Whether an entity with the UUID `id` is in the set.
    pub fn contains(&self, id: u128) -> (present: bool)
        ensures
            present == has_uuid::<T>(self@, id),
    {
        let p = self.lower_bound(id);
        p < self.items.len() && self.items[p].uuid_value() == id
    }

    /// The entity with the UUID `id`.
    pub fn get(&self, id: u128) -> (item: Option<&T>)
        ensures
            item.is_some() == has_uuid::<T>(self@, id),
            item.is_some() ==> Some(item.unwrap()@) == found::<T>(self@, id),
    {
        let p = self.lower_bound(id);
        if p < self.items.len() && self.items[p].uuid_value() == id {
            Some(&self.items[p])
        } else {
            None
        }
    }

    /// Adds `item` unless its UUID is taken: the entity that came first stays.
    pub fn insert(&mut self, item: T) -> (added: bool)
        ensures
            final(self)@ == inserted::<T>(old(self)@, item@),
            added == !has_uuid::<T>(old(self)@, uuid_of::<T>(item@)),
            ordered::<T>(final(self)@),
    {
        proof {
            use_type_invariant(&*self);
        }
        let id = item.uuid_value();
        let p = self.lower_bound(id);
        if p < self.items.len() && self.items[p].uuid_value() == id {
            false
        } else {
            proof {
                assert(views::<T>(self.items@.insert(p as int, item)) =~= self@.insert(
                    p as int,
                    item@,
                ));
            }
            let mut items: Vec<T> = Vec::new();
            core::mem::swap(&mut self.items, &mut items);
            items.insert(p, item);
            self.items = items;
            true
        }
    }

    /// Collects `records` into a set, adding them one by one from the first
    /// to the last: of two records with one UUID the earlier stays.
    pub fn collect(records: Vec<T>) -> (set: Self)
        ensures
            set@ == collected::<T>(views::<T>(records@)),
            ordered::<T>(set@),
    {
        let mut set = Self::new();
        let ghost all = views::<T>(records@);
        for record in it: records
            invariant
                all == views::<T>(it.seq()),
                set@ == collected::<T>(all.take(it.index() as int)),
                ordered::<T>(set@),
        {
            proof {
                let k = it.index() as int;
                assert(all.take(k + 1).drop_last() =~= all.take(k));
            }
            set.insert(record);
        }
        assert(all.take(all.len() as int) =~= all);
        set
    }

    /// UUID-based equality of two sets: the same UUID trees in the same order.
    pub fn same(&self, other: &Self) -> (equal: bool)
        ensures
            equal == (trees::<T>(self@) == trees::<T>(other@)),
    {
        if self.items.len() != other.items.len() {
            assert(trees::<T>(self@).len() != trees::<T>(other@).len());
            return false;
        }
        let mut i: usize = 0;
        while i < self.items.len()
            invariant
                i <= self.items.len(),
                self.items.len() == other.items.len(),
                forall|k: int|
                    0 <= k < i ==> T::uuid_tree(#[trigger] self@[k]) == T::uuid_tree(other@[k]),
            decreases self.items.len() - i,
        {
            if !self.items[i].same(&other.items[i]) {
                assert(trees::<T>(self@)[i as int] != trees::<T>(other@)[i as int]);
                return false;
            }
            i += 1;
        }
        assert(trees::<T>(self@) =~= trees::<T>(other@));
        true
    }

    /// Where the set stands to another in the order of sequences of UUID
    /// trees: by the first place at which the two differ.
    pub fn compare(&self, other: &Self) -> (order: Order)
        ensures
            order == forest_order(trees::<T>(self@), trees::<T>(other@)),
    {
        let ghost s = trees::<T>(self@);
        let ghost t = trees::<T>(other@);
        let mut i: usize = 0;
        assert(s.skip(0) =~= s && t.skip(0) =~= t);
        while i < self.items.len() && i < other.items.len()
            invariant
                i <= self.items.len(),
                i <= other.items.len(),
                s == trees::<T>(self@),
                t == trees::<T>(other@),
                s.len() == self.items.len(),
                t.len() == other.items.len(),
                forest_order(s, t) == forest_order(s.skip(i as int), t.skip(i as int)),
            decreases self.items.len() - i,
        {
            let here = self.items[i].compare(&other.items[i]);
            proof {
                assert(s.skip(i as int)[0] == T::uuid_tree(self@[i as int]));
                assert(t.skip(i as int)[0] == T::uuid_tree(other@[i as int]));
                assert(s.skip(i as int).drop_first() =~= s.skip(i + 1));
                assert(t.skip(i as int).drop_first() =~= t.skip(i + 1));
            }
            match here {
                Order::Equal => {},
                Order::Less => {
                    return Order::Less;
                },
                Order::Greater => {
                    return Order::Greater;
                },
            }
            i += 1;
        }
        if i < self.items.len() {
            Order::Greater
        } else if i < other.items.len() {
            Order::Less
        } else {
            Order::Equal
        }
    }

    /// A copy of the set that holds what the set holds.
    pub fn duplicate(&self) -> (copy: Self)
        ensures
            copy@ == self@,
            ordered::<T>(copy@),
    {
        proof {
            use_type_invariant(self);
        }
        let mut items: Vec<T> = Vec::new();
        let mut i: usize = 0;
        while i < self.items.len()
            invariant
                i <= self.items.len(),
                items@.len() == i,
                forall|k: int| 0 <= k < i ==> (#[trigger] items@[k])@ == self.items@[k]@,
            decreases self.items.len() - i,
        {
            items.push(self.items[i].duplicate());
            i += 1;
        }
        assert(views::<T>(items@) =~= self@);
        UuidSet { items }
    }
}

} // verus!
