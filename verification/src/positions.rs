//! The table of consumers: where each of them is in the event stream.
//!
//! The table is a `papaya::HashMap` from consumer identifier to padded position. It is written
//! through `&mut` only, so no other writer overlaps any of these calls.

use crossbeam_utils::CachePadded;
use vstd::prelude::*;

verus! {

/// `papaya::HashMap`, opaque: only `positions` speaks of what is inside.
#[verifier::external_type_specification]
#[verifier::external_body]
#[verifier::reject_recursive_types(K)]
#[verifier::reject_recursive_types(V)]
#[verifier::reject_recursive_types(S)]
pub struct ExHashMap<K, V, S>(papaya::HashMap<K, V, S>);

/// What a table holds: the position of each consumer in it.
pub uninterp spec fn positions(table: papaya::HashMap<u64, CachePadded<i64>>) -> Map<u64, i64>;

/// Calls `papaya::HashMap::new`, which makes an empty map.
#[verifier::external_body]
pub(crate) fn no_positions() -> (table: papaya::HashMap<u64, CachePadded<i64>>)
    ensures
        positions(table).dom() == Set::<u64>::empty(),
{
    papaya::HashMap::new()
}

/// Calls `papaya::HashMapRef::get`, which finds the value of a key that is in the map and nothing
/// for one that is not. The value is taken out of its padding.
#[verifier::external_body]
pub(crate) fn position_of(table: &papaya::HashMap<u64, CachePadded<i64>>, id: u64) -> (position:
    Option<i64>)
    ensures
        position == (if positions(*table).dom().contains(id) {
            Some(positions(*table)[id])
        } else {
            None
        }),
{
    table.pin().get(&id).map(|padded| **padded)
}

/// Calls `papaya::HashMapRef::insert`, with the position padded by `CachePadded::new`. It adds the
/// key with its value, or gives a key that is there the new value, and leaves the other keys
/// alone.
#[verifier::external_body]
pub(crate) fn set_position(
    table: &mut papaya::HashMap<u64, CachePadded<i64>>,
    id: u64,
    position: i64,
)
    ensures
        positions(*final(table)) == positions(*old(table)).insert(id, position),
{
    table.pin().insert(id, CachePadded::new(position));
}

/// Calls `papaya::HashMapRef::remove`, which takes the key out, if it is there, and leaves the
/// other keys alone.
#[verifier::external_body]
pub(crate) fn forget_position(table: &mut papaya::HashMap<u64, CachePadded<i64>>, id: u64)
    ensures
        positions(*final(table)) == positions(*old(table)).remove(id),
{
    table.pin().remove(&id);
}

/// `ids` are the keys of `held`, each once, and `values` their values in the same order.
pub open spec fn lists_in_order(values: Seq<i64>, ids: Seq<u64>, held: Map<u64, i64>) -> bool {
    &&& ids.no_duplicates()
    &&& values.len() == ids.len()
    &&& forall|id: u64| #[trigger] held.dom().contains(id) <==> ids.contains(id)
    &&& forall|i: int| 0 <= i < ids.len() ==> #[trigger] values[i] == held[ids[i]]
}

/// `values` are the values of `held`, one for each key, in some order.
pub open spec fn lists_each_once(values: Seq<i64>, held: Map<u64, i64>) -> bool {
    exists|ids: Seq<u64>| lists_in_order(values, ids, held)
}

/// Calls `papaya::HashMapRef::values`, which visits the value of every key once, in no particular
/// order. Each value is taken out of its padding.
#[verifier::external_body]
pub(crate) fn all_positions(table: &papaya::HashMap<u64, CachePadded<i64>>) -> (values: Vec<i64>)
    ensures
        lists_each_once(values@, positions(*table)),
{
    table.pin().values().map(|padded| **padded).collect()
}

/// The position of the consumer that is furthest behind, if there is any consumer.
pub(crate) fn slowest_position(table: &papaya::HashMap<u64, CachePadded<i64>>) -> (slowest: Option<
    i64,
>)
    ensures
        slowest is None <==> forall|id: u64| !positions(*table).dom().contains(id),
        slowest matches Some(least) ==> {
            &&& forall|id: u64|
                positions(*table).dom().contains(id) ==> least <= #[trigger] positions(*table)[id]
            &&& exists|id: u64|
                positions(*table).dom().contains(id) && #[trigger] positions(*table)[id] == least
        },
{
    let values: Vec<i64> = all_positions(table);
    let ghost held = positions(*table);
    let ghost ids = choose|ids: Seq<u64>| lists_in_order(values@, ids, held);
    if values.len() == 0 {
        assert forall|id: u64| !held.dom().contains(id) by {
            assert(!ids.contains(id));
        }
        return None;
    }
    assert(ids.contains(ids[0]) && held.dom().contains(ids[0]));
    let mut least: i64 = values[0];
    let ghost mut at: int = 0;
    let mut next: usize = 1;
    while next < values.len()
        invariant
            1 <= next <= values@.len(),
            0 <= at < next,
            values@[at] == least,
            forall|i: int| 0 <= i < next ==> least <= #[trigger] values@[i],
        decreases values.len() - next,
    {
        let value: i64 = values[next];
        if value < least {
            least = value;
            proof {
                at = next as int;
            }
        }
        next = next + 1;
    }
    assert(ids.contains(ids[at]));
    assert(held[ids[at]] == least);
    assert forall|id: u64| held.dom().contains(id) implies least <= #[trigger] held[id] by {
        let i = choose|i: int| 0 <= i < ids.len() && ids[i] == id;
        assert(values@[i] == held[id]);
    }
    Some(least)
}

} // verus!
