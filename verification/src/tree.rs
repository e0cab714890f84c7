//! The UUIDs of an entity and of what is below it, as a tree, and the order of
//! such trees: the comparison of entities looks at nothing else.

use core::cmp::Ordering;
use vstd::prelude::*;

verus! {

/// The UUIDs of an entity and of everything below it. Two entities are equal
/// under UUID-based comparison when their trees are equal.
pub struct UuidTree {
    pub uuid: u128,
    pub children: Seq<UuidTree>,
}

/// How one entity stands to another.
#[derive(Debug, Clone, Copy, PartialEq, Eq, Structural)]
pub enum Order {
    Less,
    Equal,
    Greater,
}

impl Order {
    /// The same outcome in the words of the standard library.
    pub open spec fn ordering(self) -> Ordering {
        match self {
            Order::Less => Ordering::Less,
            Order::Equal => Ordering::Equal,
            Order::Greater => Ordering::Greater,
        }
    }

    /// The same outcome in the words of the standard library.
    pub fn to_ordering(self) -> (ordering: Ordering)
        ensures
            ordering == self.ordering(),
    {
        match self {
            Order::Less => Ordering::Less,
            Order::Equal => Ordering::Equal,
            Order::Greater => Ordering::Greater,
        }
    }
}

/// The order of two UUID trees: by UUID, and for one UUID by the children.
pub open spec fn tree_order(a: UuidTree, b: UuidTree) -> Order
    decreases a,
{
    if a.uuid < b.uuid {
        Order::Less
    } else if a.uuid > b.uuid {
        Order::Greater
    } else {
        forest_order(a.children, b.children)
    }
}

/// The order of two sequences of UUID trees: by the first place at which they
/// differ, a sequence coming before those that it begins.
pub open spec fn forest_order(s: Seq<UuidTree>, t: Seq<UuidTree>) -> Order
    decreases s,
{
    if s.len() == 0 {
        if t.len() == 0 {
            Order::Equal
        } else {
            Order::Less
        }
    } else if t.len() == 0 {
        Order::Greater
    } else {
        match tree_order(s[0], t[0]) {
            Order::Equal => forest_order(s.drop_first(), t.drop_first()),
            other => other,
        }
    }
}

/// The order seen from the other side.
pub open spec fn flipped(order: Order) -> Order {
    match order {
        Order::Less => Order::Greater,
        Order::Equal => Order::Equal,
        Order::Greater => Order::Less,
    }
}

/// Two trees stand equal exactly when they are one tree.
pub proof fn lemma_order_equal(a: UuidTree, b: UuidTree)
    ensures
        tree_order(a, b) == Order::Equal <==> a == b,
    decreases a,
{
    lemma_forest_order_equal(a.children, b.children);
}

/// Two sequences of trees stand equal exactly when they are one sequence.
pub proof fn lemma_forest_order_equal(s: Seq<UuidTree>, t: Seq<UuidTree>)
    ensures
        forest_order(s, t) == Order::Equal <==> s == t,
    decreases s,
{
    if s.len() > 0 && t.len() > 0 {
        lemma_order_equal(s[0], t[0]);
        lemma_forest_order_equal(s.drop_first(), t.drop_first());
        if s[0] == t[0] && s.drop_first() == t.drop_first() {
            assert forall|i: int| 0 <= i < s.len() implies s[i] == t[i] by {
                if i > 0 {
                    assert(s[i] == s.drop_first()[i - 1]);
                    assert(t[i] == t.drop_first()[i - 1]);
                }
            }
            assert(s.len() == s.drop_first().len() + 1);
            assert(t.len() == t.drop_first().len() + 1);
            assert(s =~= t);
        }
    } else if s.len() == 0 && t.len() == 0 {
        assert(s =~= t);
    }
}

/// Where one tree stands before another, the other stands after it.
pub proof fn lemma_order_flips(a: UuidTree, b: UuidTree)
    ensures
        tree_order(b, a) == flipped(tree_order(a, b)),
    decreases a,
{
    lemma_forest_order_flips(a.children, b.children);
}

/// Where one sequence of trees stands before another, the other stands after
/// it.
pub proof fn lemma_forest_order_flips(s: Seq<UuidTree>, t: Seq<UuidTree>)
    ensures
        forest_order(t, s) == flipped(forest_order(s, t)),
    decreases s,
{
    if s.len() > 0 && t.len() > 0 {
        lemma_order_flips(s[0], t[0]);
        lemma_forest_order_flips(s.drop_first(), t.drop_first());
    }
}

/// The order of trees carries over: what stands before, or equal to, a tree
/// that stands before or equal to a third, stands so to the third; and
/// before it, where one of the two steps is a step forward.
pub proof fn lemma_order_transitive(a: UuidTree, b: UuidTree, c: UuidTree)
    requires
        tree_order(a, b) != Order::Greater,
        tree_order(b, c) != Order::Greater,
    ensures
        tree_order(a, c) != Order::Greater,
        tree_order(a, b) == Order::Less || tree_order(b, c) == Order::Less ==> tree_order(a, c)
            == Order::Less,
    decreases a,
{
    if a.uuid == b.uuid && b.uuid == c.uuid {
        lemma_forest_order_transitive(a.children, b.children, c.children);
    }
}

/// The order of sequences of trees carries over in the same way.
pub proof fn lemma_forest_order_transitive(
    s: Seq<UuidTree>,
    t: Seq<UuidTree>,
    u: Seq<UuidTree>,
)
    requires
        forest_order(s, t) != Order::Greater,
        forest_order(t, u) != Order::Greater,
    ensures
        forest_order(s, u) != Order::Greater,
        forest_order(s, t) == Order::Less || forest_order(t, u) == Order::Less ==> forest_order(
            s,
            u,
        ) == Order::Less,
    decreases s,
{
    if s.len() > 0 && t.len() > 0 && u.len() > 0 {
        lemma_order_transitive(s[0], t[0], u[0]);
        lemma_order_equal(s[0], t[0]);
        lemma_order_equal(t[0], u[0]);
        lemma_order_equal(s[0], u[0]);
        if tree_order(s[0], t[0]) == Order::Equal && tree_order(t[0], u[0]) == Order::Equal {
            lemma_forest_order_transitive(s.drop_first(), t.drop_first(), u.drop_first());
        }
    }
}

} // verus!
