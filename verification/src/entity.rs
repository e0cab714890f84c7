//! What the members of a GATT hierarchy have in common: a UUID by which
//! siblings are told apart and ordered, and children that are compared the
//! same way.

use crate::tree::{tree_order, Order, UuidTree};
use vstd::prelude::*;

verus! {

/// A member of the GATT hierarchy. Its view is everything it holds; its tree
/// is what comparison looks at.
pub trait Entity: View + Sized {
    /// The UUID of the entity and, below it, the trees of its children in order.
    spec fn uuid_tree(model: Self::V) -> UuidTree;

    /// The UUID as a number, its sixteen bytes read in big-endian order.
    fn uuid_value(&self) -> (id: u128)
        ensures
            id == Self::uuid_tree(self@).uuid,
    ;

    /// UUID-based equality: the same UUID, and children that are equal in the
    /// same sense, one by one.
    fn same(&self, other: &Self) -> (equal: bool)
        ensures
            equal == (Self::uuid_tree(self@) == Self::uuid_tree(other@)),
    ;

    /// Where the entity stands to another in the order of UUID trees.
    fn compare(&self, other: &Self) -> (order: Order)
        ensures
            order == tree_order(Self::uuid_tree(self@), Self::uuid_tree(other@)),
    ;

    /// A copy that holds what the entity holds.
    fn duplicate(&self) -> (copy: Self)
        ensures
            copy@ == self@,
    ;
}

/// The UUID of an entity, taken from its view.
pub open spec fn uuid_of<T: Entity>(model: T::V) -> u128 {
    T::uuid_tree(model).uuid
}

} // verus!
