//! `Cursor`, a position in the event stream.

use crate::padded::{load_i64, pad_i64, padded_i64};
use crossbeam_utils::CachePadded;
use std::cmp::Ordering;
use vstd::prelude::*;
use vstd::std_specs::cmp::{PartialEqSpec, PartialOrdSpec};

verus! {

/// A position in the event stream: the sequence number of the last event that was published, or
/// that a consumer is done with. Its view is that number.
#[derive(Debug)]
pub struct Cursor {
    value: CachePadded<i64>,
}

impl View for Cursor {
    type V = i64;

    closed spec fn view(&self) -> i64 {
        padded_i64(self.value)
    }
}

impl Default for Cursor {
    fn default() -> (cursor: Self)
        ensures
            cursor@ == 0,
    {
        Cursor::new(0)
    }
}

impl Cursor {
    /// A cursor at `val`.
    pub fn new(val: i64) -> (cursor: Self)
        ensures
            cursor@ == val,
    {
        Cursor { value: pad_i64(val) }
    }

    /// Moves the cursor by `delta`, wrapping around at the ends of `i64`, and returns where it
    /// was.
    pub fn fetch_add(&mut self, delta: i64) -> (previous: i64)
        ensures
            previous == old(self)@,
            final(self)@ == old(self)@.wrapping_add(delta),
    {
        let previous: i64 = self.relaxed();
        self.value = pad_i64(previous.wrapping_add(delta));
        previous
    }

    /// Moves the cursor to `next` if it is at `current`. Returns where it was: as `Ok` if it was
    /// moved, as `Err` if it was elsewhere and stays there.
    pub fn compare_exchange(&mut self, current: i64, next: i64) -> (result: Result<i64, i64>)
        ensures
            old(self)@ == current ==> result == Ok::<i64, i64>(current) && final(self)@ == next,
            old(self)@ != current ==> result == Err::<i64, i64>(old(self)@) && final(self)@ == old(
                self,
            )@,
    {
        let previous: i64 = self.relaxed();
        if previous == current {
            self.value = pad_i64(next);
            Ok(previous)
        } else {
            Err(previous)
        }
    }

    /// Where the cursor is.
    pub fn relaxed(&self) -> (position: i64)
        ensures
            position == self@,
    {
        load_i64(&self.value)
    }

    /// Moves the cursor to `position`.
    pub fn store(&mut self, position: i64)
        ensures
            final(self)@ == position,
    {
        self.value = pad_i64(position);
    }

    /// Orders two cursors by their positions.
    pub fn cmp(&self, other: &Self) -> (order: Ordering)
        ensures
            order == Ordering::Less <==> self@ < other@,
            order == Ordering::Equal <==> self@ == other@,
            order == Ordering::Greater <==> self@ > other@,
    {
        self.relaxed().cmp(&other.relaxed())
    }
}

/// The order of two numbers, as a mathematical statement.
pub open spec fn number_order(left: i64, right: i64) -> Ordering {
    if left < right {
        Ordering::Less
    } else if left == right {
        Ordering::Equal
    } else {
        Ordering::Greater
    }
}

impl PartialEq for Cursor {
    fn eq(&self, other: &Self) -> (equal: bool) {
        self.relaxed() == other.relaxed()
    }
}

impl vstd::std_specs::cmp::PartialEqSpecImpl for Cursor {
    open spec fn obeys_eq_spec() -> bool {
        true
    }

    open spec fn eq_spec(&self, other: &Self) -> bool {
        self@ == other@
    }
}

impl Eq for Cursor {

}

impl PartialEq<i64> for Cursor {
    fn eq(&self, other: &i64) -> (equal: bool) {
        self.relaxed() == *other
    }
}

impl vstd::std_specs::cmp::PartialEqSpecImpl<i64> for Cursor {
    open spec fn obeys_eq_spec() -> bool {
        true
    }

    open spec fn eq_spec(&self, other: &i64) -> bool {
        self@ == *other
    }
}

impl PartialOrd for Cursor {
    fn partial_cmp(&self, other: &Self) -> (order: Option<Ordering>) {
        Some(self.relaxed().cmp(&other.relaxed()))
    }
}

impl vstd::std_specs::cmp::PartialOrdSpecImpl for Cursor {
    open spec fn obeys_partial_cmp_spec() -> bool {
        true
    }

    open spec fn partial_cmp_spec(&self, other: &Self) -> Option<Ordering> {
        Some(number_order(self@, other@))
    }
}

impl PartialOrd<i64> for Cursor {
    fn partial_cmp(&self, other: &i64) -> (order: Option<Ordering>) {
        Some(self.relaxed().cmp(other))
    }
}

impl vstd::std_specs::cmp::PartialOrdSpecImpl<i64> for Cursor {
    open spec fn obeys_partial_cmp_spec() -> bool {
        true
    }

    open spec fn partial_cmp_spec(&self, other: &i64) -> Option<Ordering> {
        Some(number_order(self@, *other))
    }
}

/// Whether comparing a `Left` with a `Right` gives what their specifications say.
pub open spec fn compares_as_specified<Left: PartialOrdSpec<Right>, Right>() -> bool {
    Left::obeys_eq_spec() && Left::obeys_partial_cmp_spec()
}

/// Cursors compare as their positions do, with each other and with numbers: they are equal when
/// the positions are, and the one further back comes first.
pub proof fn law_cursors_compare_by_position(left: Cursor, right: Cursor, number: i64)
    ensures
        compares_as_specified::<Cursor, Cursor>(),
        compares_as_specified::<Cursor, i64>(),
        left.eq_spec(&right) <==> left@ == right@,
        left.eq_spec(&number) <==> left@ == number,
        left.partial_cmp_spec(&right) == Some(Ordering::Less) <==> left@ < right@,
        left.partial_cmp_spec(&right) == Some(Ordering::Equal) <==> left@ == right@,
        left.partial_cmp_spec(&right) == Some(Ordering::Greater) <==> left@ > right@,
        left.partial_cmp_spec(&number) == Some(Ordering::Less) <==> left@ < number,
        left.partial_cmp_spec(&number) == Some(Ordering::Equal) <==> left@ == number,
        left.partial_cmp_spec(&number) == Some(Ordering::Greater) <==> left@ > number,
{
}

} // verus!
