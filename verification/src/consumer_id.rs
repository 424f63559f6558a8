//! The identifiers of consumers.

use crate::padded::{load_u64, pad_u64, padded_u64};
use crossbeam_utils::CachePadded;
use vstd::prelude::*;

verus! {

/// Hands out consumer identifiers in order. Its view is the identifier that comes next.
#[derive(Debug)]
pub struct ConsumerIds {
    id: CachePadded<u64>,
}

impl View for ConsumerIds {
    type V = u64;

    closed spec fn view(&self) -> u64 {
        padded_u64(self.id)
    }
}

impl Default for ConsumerIds {
    fn default() -> (ids: Self)
        ensures
            ids@ == 0,
    {
        ConsumerIds { id: pad_u64(0) }
    }
}

impl ConsumerIds {
    /// The next identifier. After the last `u64` comes 0 again.
    pub fn next_id(&mut self) -> (id: u64)
        ensures
            id == old(self)@,
            final(self)@ == old(self)@.wrapping_add(1),
    {
        let id: u64 = load_u64(&self.id);
        self.id = pad_u64(id.wrapping_add(1));
        id
    }
}

} // verus!
