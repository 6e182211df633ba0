//! From the rows that the settings store returns to the values asked for.
use indexmap::IndexMap;
use vstd::prelude::*;

verus! {

/// `indexmap::IndexMap`: a map that keeps its keys in the order in which
/// they were first put in.
#[verifier::external_type_specification]
#[verifier::external_body]
#[verifier::reject_recursive_types(K)]
#[verifier::reject_recursive_types(V)]
#[verifier::reject_recursive_types(S)]
pub struct ExIndexMap<K, V, S>(IndexMap<K, V, S>);

/// The key-value pairs that a map holds, in its order.
pub uninterp spec fn index_map_items(m: IndexMap<u64, u64>) -> Seq<(u64, u64)>;

/// Where `key` stands among the first `n` pairs of `items`, if it does.
pub open spec fn key_index(items: Seq<(u64, u64)>, key: u64, n: int) -> Option<int>
    decreases n,
{
    if n <= 0 {
        None
    } else if key_index(items, key, n - 1) is Some {
        key_index(items, key, n - 1)
    } else if items[n - 1].0 == key {
        Some(n - 1)
    } else {
        None
    }
}

/// `items` after `key` is given `value`: a key that is there keeps its
/// place and gets the value; a new key goes last.
pub open spec fn inserted(items: Seq<(u64, u64)>, key: u64, value: u64) -> Seq<(u64, u64)> {
    match key_index(items, key, items.len() as int) {
        Some(i) => items.update(i, (key, value)),
        None => items.push((key, value)),
    }
}

/// `IndexMap::new`: a map that holds nothing.
#[verifier::external_body]
fn new_index_map() -> (m: IndexMap<u64, u64>)
    ensures
        index_map_items(m) == Seq::<(u64, u64)>::empty(),
{
    IndexMap::new()
}

/// `IndexMap::insert`: a key that the map holds keeps its place in the
/// order and gets the new value; a key that it does not hold is put last,
/// with the value.
#[verifier::external_body]
fn index_map_insert(m: &mut IndexMap<u64, u64>, key: u64, value: u64)
    ensures
        index_map_items(*final(m)) == inserted(index_map_items(*old(m)), key, value),
{
    m.insert(key, value);
}

/// A signed number as the unsigned number of the same bits.
pub open spec fn reinterpreted(x: i64) -> u64 {
    if x >= 0 {
        x as u64
    } else {
        (x + 0x1_0000_0000_0000_0000) as u64
    }
}

/// A signed number as the unsigned number of the same bits.
pub fn reinterpret(x: i64) -> (u: u64)
    ensures
        u == reinterpreted(x),
{
    if x >= 0 {
        x as u64
    } else {
        u64::MAX - ((-(x + 1)) as u64)
    }
}

/// The pairs collected from the first `n` of `rows`, in the order in
/// which their keys came first, each key with the value that came last.
pub open spec fn collected(rows: Seq<(i64, i64)>, n: int) -> Seq<(u64, u64)>
    decreases n,
{
    if n <= 0 {
        Seq::empty()
    } else {
        inserted(collected(rows, n - 1), reinterpreted(rows[n - 1].0), reinterpreted(rows[n - 1].1))
    }
}

/// The rows of a sorted query as a map from key to sort key, in the
/// order of the rows.
pub fn sorted_rows(rows: &Vec<(i64, i64)>) -> (m: IndexMap<u64, u64>)
    ensures
        index_map_items(m) == collected(rows@, rows@.len() as int),
{
    let mut m = new_index_map();
    let mut i: usize = 0;
    while i < rows.len()
        invariant
            i <= rows.len(),
            index_map_items(m) == collected(rows@, i as int),
        decreases rows.len() - i,
    {
        let row = rows[i];
        index_map_insert(&mut m, reinterpret(row.0), reinterpret(row.1));
        i += 1;
    }
    m
}

/// The values of a one-column query.
pub fn all_rows(rows: &Vec<i64>) -> (values: Vec<u64>)
    ensures
        values@.len() == rows@.len(),
        forall|i: int| 0 <= i < rows@.len() ==> values@[i] == reinterpreted(#[trigger] rows@[i]),
{
    let mut values: Vec<u64> = Vec::new();
    let mut i: usize = 0;
    while i < rows.len()
        invariant
            i <= rows.len(),
            values@.len() == i,
            forall|k: int| 0 <= k < i ==> values@[k] == reinterpreted(#[trigger] rows@[k]),
        decreases rows.len() - i,
    {
        values.push(reinterpret(rows[i]));
        i += 1;
    }
    values
}

} // verus!
