//! Record number tracking for an established session.

use vstd::prelude::*;

verus! {

/// Record number tracking. The epoch is always 0 in this design, so only
/// the sequence number is tracked; it must stay within 48 bits to fit the
/// record header's sequence field.
pub struct RecordNumber {
    sequence_number: u64,
}

impl RecordNumber {
    /// The sequence number the counter stands at.
    pub closed spec fn spec_sequence_number(&self) -> u64 {
        self.sequence_number
    }

    /// Create a new record number counter, starting at 0.
    pub fn new() -> (r: Self)
        ensures
            r.spec_sequence_number() == 0,
    {
        Self { sequence_number: 0 }
    }
}

} // verus!
