//! The cache-line padding of the counters and flags that a channel writes most.
//!
//! `CachePadded` puts a value on a cache line of its own and changes nothing else about it. What
//! is inside is spoken of by name: what `CachePadded::new` was given is what dereferencing
//! gives back.

use crossbeam_utils::CachePadded;
use vstd::prelude::*;

verus! {

/// `crossbeam_utils::CachePadded`, opaque: only the names below speak of what is inside.
#[verifier::external_type_specification]
#[verifier::external_body]
#[verifier::reject_recursive_types(T)]
pub struct ExCachePadded<T>(CachePadded<T>);

/// The number inside a padded `i64`.
pub uninterp spec fn padded_i64(padded: CachePadded<i64>) -> i64;

/// The number inside a padded `u64`.
pub uninterp spec fn padded_u64(padded: CachePadded<u64>) -> u64;

/// The flag inside a padded `bool`.
pub uninterp spec fn padded_bool(padded: CachePadded<bool>) -> bool;

/// Calls `CachePadded::new`, which keeps the value that it is given.
#[verifier::external_body]
pub(crate) fn pad_i64(value: i64) -> (padded: CachePadded<i64>)
    ensures
        padded_i64(padded) == value,
{
    CachePadded::new(value)
}

/// Calls `CachePadded::deref`, which gives the value inside.
#[verifier::external_body]
pub(crate) fn load_i64(padded: &CachePadded<i64>) -> (value: i64)
    ensures
        value == padded_i64(*padded),
{
    **padded
}

/// Calls `CachePadded::new`, which keeps the value that it is given.
#[verifier::external_body]
pub(crate) fn pad_u64(value: u64) -> (padded: CachePadded<u64>)
    ensures
        padded_u64(padded) == value,
{
    CachePadded::new(value)
}

/// Calls `CachePadded::deref`, which gives the value inside.
#[verifier::external_body]
pub(crate) fn load_u64(padded: &CachePadded<u64>) -> (value: u64)
    ensures
        value == padded_u64(*padded),
{
    **padded
}

/// Calls `CachePadded::new`, which keeps the value that it is given.
#[verifier::external_body]
pub(crate) fn pad_bool(value: bool) -> (padded: CachePadded<bool>)
    ensures
        padded_bool(padded) == value,
{
    CachePadded::new(value)
}

/// Calls `CachePadded::deref`, which gives the value inside.
#[verifier::external_body]
pub(crate) fn load_bool(padded: &CachePadded<bool>) -> (value: bool)
    ensures
        value == padded_bool(*padded),
{
    **padded
}

} // verus!
