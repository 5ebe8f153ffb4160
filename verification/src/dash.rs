//! The trusted boundary around `dashmap::DashMap`, the concurrent map that
//! backs the dictionary property list. Each instantiation's contents are
//! named as a mathematical map, and each method the library calls gets a
//! wrapper whose contract states what the crate's source shows: `insert`
//! stores under the key and hands back what was there, `remove` takes the
//! entry out and hands it back.

use vstd::prelude::*;

use dashmap::DashMap;

verus! {

#[verifier::external_type_specification]
#[verifier::external_body]
#[verifier::reject_recursive_types(K)]
#[verifier::reject_recursive_types(V)]
#[verifier::reject_recursive_types(S)]
pub struct ExDashMap<K, V, S>(DashMap<K, V, S>);

/// The entries of a map from property key to float bit pattern.
pub uninterp spec fn float_bits_entries(m: DashMap<i32, u64>) -> Map<i32, u64>;

/// The entries of a map from property key to 32-bit integer.
pub uninterp spec fn int32_entries(m: DashMap<i32, i32>) -> Map<i32, i32>;

/// The entries of a map from property key to 64-bit integer.
pub uninterp spec fn int64_entries(m: DashMap<i32, i64>) -> Map<i32, i64>;

/// The entries of a map from property key to a stored table address, held
/// as its two indices.
pub uninterp spec fn object_entries(m: DashMap<i32, (usize, usize)>) -> Map<i32, (usize, usize)>;

/// Relies on dashmap::DashMap::insert: stores `value` under `key` and
/// returns the value previously there, if any.
#[verifier::external_body]
pub(crate) fn insert_float_bits(m: &mut DashMap<i32, u64>, key: i32, value: u64) -> (r: Option<
    u64,
>)
    ensures
        float_bits_entries(*final(m)) == float_bits_entries(*old(m)).insert(key, value),
        r == (if float_bits_entries(*old(m)).dom().contains(key) {
            Some(float_bits_entries(*old(m))[key])
        } else {
            None::<u64>
        }),
{
    m.insert(key, value)
}

/// Relies on dashmap::DashMap::remove: takes the entry under `key` out of
/// the map and returns it, if it was there.
#[verifier::external_body]
pub(crate) fn remove_float_bits(m: &mut DashMap<i32, u64>, key: i32) -> (r: Option<u64>)
    ensures
        float_bits_entries(*final(m)) == float_bits_entries(*old(m)).remove(key),
        r == (if float_bits_entries(*old(m)).dom().contains(key) {
            Some(float_bits_entries(*old(m))[key])
        } else {
            None::<u64>
        }),
{
    m.remove(&key).map(|kv| kv.1)
}

/// Relies on dashmap::DashMap::insert: stores `value` under `key` and
/// returns the value previously there, if any.
#[verifier::external_body]
pub(crate) fn insert_int32(m: &mut DashMap<i32, i32>, key: i32, value: i32) -> (r: Option<i32>)
    ensures
        int32_entries(*final(m)) == int32_entries(*old(m)).insert(key, value),
        r == (if int32_entries(*old(m)).dom().contains(key) {
            Some(int32_entries(*old(m))[key])
        } else {
            None::<i32>
        }),
{
    m.insert(key, value)
}

/// Relies on dashmap::DashMap::remove: takes the entry under `key` out of
/// the map and returns it, if it was there.
#[verifier::external_body]
pub(crate) fn remove_int32(m: &mut DashMap<i32, i32>, key: i32) -> (r: Option<i32>)
    ensures
        int32_entries(*final(m)) == int32_entries(*old(m)).remove(key),
        r == (if int32_entries(*old(m)).dom().contains(key) {
            Some(int32_entries(*old(m))[key])
        } else {
            None::<i32>
        }),
{
    m.remove(&key).map(|kv| kv.1)
}

/// Relies on dashmap::DashMap::insert: stores `value` under `key` and
/// returns the value previously there, if any.
#[verifier::external_body]
pub(crate) fn insert_int64(m: &mut DashMap<i32, i64>, key: i32, value: i64) -> (r: Option<i64>)
    ensures
        int64_entries(*final(m)) == int64_entries(*old(m)).insert(key, value),
        r == (if int64_entries(*old(m)).dom().contains(key) {
            Some(int64_entries(*old(m))[key])
        } else {
            None::<i64>
        }),
{
    m.insert(key, value)
}

/// Relies on dashmap::DashMap::remove: takes the entry under `key` out of
/// the map and returns it, if it was there.
#[verifier::external_body]
pub(crate) fn remove_int64(m: &mut DashMap<i32, i64>, key: i32) -> (r: Option<i64>)
    ensures
        int64_entries(*final(m)) == int64_entries(*old(m)).remove(key),
        r == (if int64_entries(*old(m)).dom().contains(key) {
            Some(int64_entries(*old(m))[key])
        } else {
            None::<i64>
        }),
{
    m.remove(&key).map(|kv| kv.1)
}

/// Relies on dashmap::DashMap::insert: stores `value` under `key` and
/// returns the value previously there, if any.
#[verifier::external_body]
pub(crate) fn insert_object(
    m: &mut DashMap<i32, (usize, usize)>,
    key: i32,
    value: (usize, usize),
) -> (r: Option<(usize, usize)>)
    ensures
        object_entries(*final(m)) == object_entries(*old(m)).insert(key, value),
        r == (if object_entries(*old(m)).dom().contains(key) {
            Some(object_entries(*old(m))[key])
        } else {
            None::<(usize, usize)>
        }),
{
    m.insert(key, value)
}

/// Relies on dashmap::DashMap::remove: takes the entry under `key` out of
/// the map and returns it, if it was there.
#[verifier::external_body]
pub(crate) fn remove_object(m: &mut DashMap<i32, (usize, usize)>, key: i32) -> (r: Option<
    (usize, usize),
>)
    ensures
        object_entries(*final(m)) == object_entries(*old(m)).remove(key),
        r == (if object_entries(*old(m)).dom().contains(key) {
            Some(object_entries(*old(m))[key])
        } else {
            None::<(usize, usize)>
        }),
{
    m.remove(&key).map(|kv| kv.1)
}

} // verus!
