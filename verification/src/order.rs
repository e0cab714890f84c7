//! Sequences of entities in ascending order of UUID: what it means to hold a
//! UUID, to add an entity, to collect records, and what follows.

use crate::entity::{uuid_of, Entity};
use crate::tree::{tree_order, Order, UuidTree};
use vstd::prelude::*;

verus! {

/// The entities stand in strictly ascending order of UUID.
pub open spec fn ordered<T: Entity>(s: Seq<T::V>) -> bool {
    forall|i: int, j: int|
        0 <= i < j < s.len() ==> uuid_of::<T>(#[trigger] s[i]) < uuid_of::<T>(#[trigger] s[j])
}

/// Some entity in `s` has the UUID `id`.
pub open spec fn has_uuid<T: Entity>(s: Seq<T::V>, id: u128) -> bool {
    exists|i: int| 0 <= i < s.len() && uuid_of::<T>(#[trigger] s[i]) == id
}

/// The length of the leading run of entities whose UUID is below `id`: in an
/// ordered sequence, the place of `id`.
pub open spec fn rank<T: Entity>(s: Seq<T::V>, id: u128) -> int
    decreases s.len(),
{
    if s.len() == 0 || uuid_of::<T>(s[0]) >= id {
        0
    } else {
        1 + rank::<T>(s.drop_first(), id)
    }
}

/// The entity of `s` with the UUID `id`, if there is one.
pub open spec fn found<T: Entity>(s: Seq<T::V>, id: u128) -> Option<T::V> {
    if has_uuid::<T>(s, id) {
        Some(s[rank::<T>(s, id)])
    } else {
        None
    }
}

/// `s` after an attempt to add `item`: unchanged where its UUID is taken,
/// else with `item` at the place of its UUID.
pub open spec fn inserted<T: Entity>(s: Seq<T::V>, item: T::V) -> Seq<T::V> {
    if has_uuid::<T>(s, uuid_of::<T>(item)) {
        s
    } else {
        s.insert(rank::<T>(s, uuid_of::<T>(item)), item)
    }
}

/// The set that holds `records`, added one by one from the first to the last.
pub open spec fn collected<T: Entity>(records: Seq<T::V>) -> Seq<T::V>
    decreases records.len(),
{
    if records.len() == 0 {
        Seq::empty()
    } else {
        inserted::<T>(collected::<T>(records.drop_last()), records.last())
    }
}

/// The UUID trees of a sequence of entities.
pub open spec fn trees<T: Entity>(s: Seq<T::V>) -> Seq<UuidTree> {
    s.map_values(|item: T::V| T::uuid_tree(item))
}

/// The views of a sequence of entities.
pub open spec fn views<T: Entity>(items: Seq<T>) -> Seq<T::V> {
    items.map_values(|item: T| item@)
}

/// `p` is the place of `id` when every entity before `p` is below `id` and
/// the entity at `p`, if there is one, is not.
pub proof fn lemma_rank_is_place<T: Entity>(s: Seq<T::V>, id: u128, p: int)
    requires
        0 <= p <= s.len(),
        forall|i: int| 0 <= i < p ==> uuid_of::<T>(#[trigger] s[i]) < id,
        p < s.len() ==> uuid_of::<T>(s[p]) >= id,
    ensures
        rank::<T>(s, id) == p,
    decreases p,
{
    if p > 0 {
        lemma_rank_is_place::<T>(s.drop_first(), id, p - 1);
    }
}

/// In an ordered sequence everything before the place of `id` is below `id`,
/// and nothing from there on is.
pub proof fn lemma_rank_splits<T: Entity>(s: Seq<T::V>, id: u128)
    requires
        ordered::<T>(s),
    ensures
        0 <= rank::<T>(s, id) <= s.len(),
        forall|i: int| 0 <= i < rank::<T>(s, id) ==> uuid_of::<T>(#[trigger] s[i]) < id,
        forall|i: int| rank::<T>(s, id) <= i < s.len() ==> uuid_of::<T>(#[trigger] s[i]) >= id,
        has_uuid::<T>(s, id) <==> (rank::<T>(s, id) < s.len() && uuid_of::<T>(
            s[rank::<T>(s, id)],
        ) == id),
    decreases s.len(),
{
    if s.len() > 0 && uuid_of::<T>(s[0]) < id {
        let rest = s.drop_first();
        lemma_rank_splits::<T>(rest, id);
        assert forall|i: int| 0 <= i < rank::<T>(s, id) implies uuid_of::<T>(#[trigger] s[i])
            < id by {
            if i > 0 {
                assert(s[i] == rest[i - 1]);
            }
        }
    }
}

/// In an ordered sequence every entity stands before those that follow it,
/// in the order of UUID trees too.
pub proof fn lemma_ordered_as_trees<T: Entity>(s: Seq<T::V>, i: int, j: int)
    requires
        ordered::<T>(s),
        0 <= i < j < s.len(),
    ensures
        tree_order(T::uuid_tree(s[i]), T::uuid_tree(s[j])) == Order::Less,
{
    assert(uuid_of::<T>(s[i]) < uuid_of::<T>(s[j]));
}

/// No two entities of an ordered sequence share a UUID.
pub proof fn lemma_uuids_distinct<T: Entity>(s: Seq<T::V>, i: int, j: int)
    requires
        ordered::<T>(s),
        0 <= i < s.len(),
        0 <= j < s.len(),
        i != j,
    ensures
        uuid_of::<T>(s[i]) != uuid_of::<T>(s[j]),
{
}

/// An entity whose UUID is taken leaves the set as it was; any other makes it
/// one longer.
pub proof fn lemma_inserted_len<T: Entity>(s: Seq<T::V>, item: T::V)
    requires
        ordered::<T>(s),
    ensures
        has_uuid::<T>(s, uuid_of::<T>(item)) ==> inserted::<T>(s, item) == s,
        !has_uuid::<T>(s, uuid_of::<T>(item)) ==> inserted::<T>(s, item).len() == s.len() + 1,
{
    lemma_rank_splits::<T>(s, uuid_of::<T>(item));
}

/// Adding an entity keeps the order.
pub proof fn lemma_inserted_ordered<T: Entity>(s: Seq<T::V>, item: T::V)
    requires
        ordered::<T>(s),
    ensures
        ordered::<T>(inserted::<T>(s, item)),
{
    let id = uuid_of::<T>(item);
    if !has_uuid::<T>(s, id) {
        lemma_rank_splits::<T>(s, id);
    }
}

/// After adding an entity the set holds its UUID and those it held before.
pub proof fn lemma_inserted_uuids<T: Entity>(s: Seq<T::V>, item: T::V, id: u128)
    requires
        ordered::<T>(s),
    ensures
        has_uuid::<T>(inserted::<T>(s, item), id) <==> (has_uuid::<T>(s, id) || id == uuid_of::<T>(
            item,
        )),
{
    let own = uuid_of::<T>(item);
    if !has_uuid::<T>(s, own) {
        lemma_rank_splits::<T>(s, own);
        let p = rank::<T>(s, own);
        let t = s.insert(p, item);
        if has_uuid::<T>(s, id) {
            let w = choose|i: int| 0 <= i < s.len() && uuid_of::<T>(#[trigger] s[i]) == id;
            if w < p {
                assert(t[w] == s[w]);
            } else {
                assert(t[w + 1] == s[w]);
            }
        }
        if id == own {
            assert(t[p] == item);
        }
    }
}

/// A collected set is ordered.
pub proof fn lemma_collected_ordered<T: Entity>(records: Seq<T::V>)
    ensures
        ordered::<T>(collected::<T>(records)),
    decreases records.len(),
{
    if records.len() > 0 {
        lemma_collected_ordered::<T>(records.drop_last());
        lemma_inserted_ordered::<T>(collected::<T>(records.drop_last()), records.last());
    }
}

/// A collected set holds the UUIDs of its records and no others.
pub proof fn lemma_collected_uuids<T: Entity>(records: Seq<T::V>, id: u128)
    ensures
        has_uuid::<T>(collected::<T>(records), id) <==> has_uuid::<T>(records, id),
    decreases records.len(),
{
    if records.len() > 0 {
        let front = records.drop_last();
        lemma_collected_uuids::<T>(front, id);
        lemma_collected_ordered::<T>(front);
        lemma_inserted_uuids::<T>(collected::<T>(front), records.last(), id);
        if has_uuid::<T>(records, id) {
            let w = choose|i: int|
                0 <= i < records.len() && uuid_of::<T>(#[trigger] records[i]) == id;
            if w < front.len() {
                assert(front[w] == records[w]);
            }
        }
    }
}

/// Of the records that share a UUID, a collected set holds the first.
pub proof fn lemma_collected_keeps_first<T: Entity>(records: Seq<T::V>, first: int)
    requires
        0 <= first < records.len(),
        forall|j: int|
            0 <= j < first ==> uuid_of::<T>(#[trigger] records[j]) != uuid_of::<T>(records[first]),
    ensures
        found::<T>(collected::<T>(records), uuid_of::<T>(records[first])) == Some(records[first]),
    decreases records.len(),
{
    let id = uuid_of::<T>(records[first]);
    let front = records.drop_last();
    let last = records.last();
    let set = collected::<T>(front);
    let grown = collected::<T>(records);
    lemma_collected_ordered::<T>(front);
    lemma_collected_ordered::<T>(records);
    lemma_rank_splits::<T>(set, uuid_of::<T>(last));
    let q = rank::<T>(set, uuid_of::<T>(last));
    if first == records.len() - 1 {
        // No record before the last has its UUID, so the last is added.
        lemma_collected_uuids::<T>(front, id);
        if has_uuid::<T>(front, id) {
            let w = choose|i: int| 0 <= i < front.len() && uuid_of::<T>(#[trigger] front[i]) == id;
            assert(records[w] == front[w]);
        }
        assert(grown[q] == last);
        lemma_found_at::<T>(grown, q);
    } else {
        // The set of the records before the last holds the first; adding the
        // last moves it by one place at most.
        assert forall|j: int| 0 <= j < first implies uuid_of::<T>(#[trigger] front[j])
            != uuid_of::<T>(front[first]) by {
            assert(front[j] == records[j]);
        }
        assert(front[first] == records[first]);
        lemma_collected_keeps_first::<T>(front, first);
        if !has_uuid::<T>(set, uuid_of::<T>(last)) {
            lemma_rank_splits::<T>(set, id);
            let p = rank::<T>(set, id);
            let place = if q <= p {
                p + 1
            } else {
                p
            };
            assert(grown[place] == set[p]);
            lemma_found_at::<T>(grown, place);
        }
    }
}

/// The place of a UUID depends on the UUIDs of a sequence alone.
pub proof fn lemma_rank_of_trees<T: Entity>(s: Seq<T::V>, t: Seq<T::V>, id: u128)
    requires
        trees::<T>(s) == trees::<T>(t),
    ensures
        rank::<T>(s, id) == rank::<T>(t, id),
        has_uuid::<T>(s, id) <==> has_uuid::<T>(t, id),
    decreases s.len(),
{
    assert(s.len() == trees::<T>(s).len());
    assert forall|i: int| 0 <= i < s.len() implies uuid_of::<T>(#[trigger] s[i]) == uuid_of::<T>(
        t[i],
    ) by {
        assert(trees::<T>(s)[i] == T::uuid_tree(s[i]));
    }
    if has_uuid::<T>(t, id) {
        let w = choose|i: int| 0 <= i < t.len() && uuid_of::<T>(#[trigger] t[i]) == id;
        assert(uuid_of::<T>(s[w]) == id);
    }
    if s.len() > 0 {
        assert(trees::<T>(s.drop_first()) =~= trees::<T>(s).drop_first());
        assert(trees::<T>(t.drop_first()) =~= trees::<T>(t).drop_first());
        lemma_rank_of_trees::<T>(s.drop_first(), t.drop_first(), id);
    }
}

/// Records that are equal under UUID-based comparison, one by one, are
/// collected into sets that are equal under UUID-based comparison.
pub proof fn lemma_collected_alike<T: Entity>(a: Seq<T::V>, b: Seq<T::V>)
    requires
        trees::<T>(a) == trees::<T>(b),
    ensures
        trees::<T>(collected::<T>(a)) == trees::<T>(collected::<T>(b)),
    decreases a.len(),
{
    assert(a.len() == trees::<T>(a).len());
    if a.len() > 0 {
        assert(trees::<T>(a.drop_last()) =~= trees::<T>(a).drop_last());
        assert(trees::<T>(b.drop_last()) =~= trees::<T>(b).drop_last());
        lemma_collected_alike::<T>(a.drop_last(), b.drop_last());
        let s = collected::<T>(a.drop_last());
        let t = collected::<T>(b.drop_last());
        let x = a.last();
        let y = b.last();
        assert(T::uuid_tree(x) == T::uuid_tree(y)) by {
            assert(trees::<T>(a)[a.len() - 1] == trees::<T>(b)[b.len() - 1]);
        }
        lemma_rank_of_trees::<T>(s, t, uuid_of::<T>(x));
        lemma_collected_ordered::<T>(a.drop_last());
        lemma_rank_splits::<T>(s, uuid_of::<T>(x));
        if !has_uuid::<T>(s, uuid_of::<T>(x)) {
            let p = rank::<T>(s, uuid_of::<T>(x));
            assert(trees::<T>(s.insert(p, x)) =~= trees::<T>(s).insert(p, T::uuid_tree(x)));
        }
    }
}

/// In an ordered sequence an entity stands at the place of its UUID.
pub proof fn lemma_found_at<T: Entity>(s: Seq<T::V>, i: int)
    requires
        ordered::<T>(s),
        0 <= i < s.len(),
    ensures
        rank::<T>(s, uuid_of::<T>(s[i])) == i,
        found::<T>(s, uuid_of::<T>(s[i])) == Some(s[i]),
{
    lemma_rank_is_place::<T>(s, uuid_of::<T>(s[i]), i);
}

/// Two ordered sequences that hold the same entity under every UUID agree on
/// their first `n` places.
proof fn lemma_prefix_by_content<T: Entity>(s: Seq<T::V>, t: Seq<T::V>, n: int)
    requires
        ordered::<T>(s),
        ordered::<T>(t),
        forall|id: u128| #[trigger] found::<T>(s, id) == found::<T>(t, id),
        0 <= n <= s.len(),
    ensures
        n <= t.len(),
        forall|i: int| 0 <= i < n ==> s[i] == t[i],
    decreases n,
{
    if n > 0 {
        lemma_prefix_by_content::<T>(s, t, n - 1);
        let i = n - 1;
        let u = uuid_of::<T>(s[i]);
        lemma_found_at::<T>(s, i);
        lemma_rank_splits::<T>(t, u);
        if rank::<T>(t, u) > i {
            let v = uuid_of::<T>(t[i]);
            assert(found::<T>(s, v) == found::<T>(t, v));
        }
    }
}

/// An ordered sequence is fixed by what it holds: two that hold the same
/// entity under every UUID are equal.
pub proof fn lemma_ordered_by_content<T: Entity>(s: Seq<T::V>, t: Seq<T::V>)
    requires
        ordered::<T>(s),
        ordered::<T>(t),
        forall|id: u128| #[trigger] found::<T>(s, id) == found::<T>(t, id),
    ensures
        s == t,
{
    lemma_prefix_by_content::<T>(s, t, s.len() as int);
    lemma_prefix_by_content::<T>(t, s, t.len() as int);
}

/// Where no two records share a UUID, the set that they are collected into
/// does not depend on the order in which they come.
pub proof fn lemma_collected_in_any_order<T: Entity>(a: Seq<T::V>, b: Seq<T::V>)
    requires
        forall|i: int, j: int|
            0 <= i < j < a.len() ==> uuid_of::<T>(#[trigger] a[i]) != uuid_of::<T>(#[trigger] a[j]),
        forall|i: int, j: int|
            0 <= i < j < b.len() ==> uuid_of::<T>(#[trigger] b[i]) != uuid_of::<T>(#[trigger] b[j]),
        forall|record: T::V| #[trigger] a.contains(record) <==> b.contains(record),
    ensures
        collected::<T>(a) == collected::<T>(b),
{
    let s = collected::<T>(a);
    let t = collected::<T>(b);
    assert forall|id: u128| #[trigger] found::<T>(s, id) == found::<T>(t, id) by {
        lemma_collected_uuids::<T>(a, id);
        lemma_collected_uuids::<T>(b, id);
        if has_uuid::<T>(a, id) {
            let i = choose|i: int| 0 <= i < a.len() && uuid_of::<T>(#[trigger] a[i]) == id;
            assert(a.contains(a[i]));
            let j = choose|j: int| 0 <= j < b.len() && b[j] == a[i];
            lemma_collected_keeps_first::<T>(a, i);
            lemma_collected_keeps_first::<T>(b, j);
        } else if has_uuid::<T>(b, id) {
            let j = choose|j: int| 0 <= j < b.len() && uuid_of::<T>(#[trigger] b[j]) == id;
            assert(a.contains(b[j]));
        }
    }
    lemma_collected_ordered::<T>(a);
    lemma_collected_ordered::<T>(b);
    lemma_ordered_by_content::<T>(s, t);
}

} // verus!
