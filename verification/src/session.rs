use vstd::prelude::*;

use crate::timestamp::Timestamp;

verus! {

/// One scan run: when it started, when it ended. Created at scan start,
/// finalized at scan end, never mutated afterward.
#[derive(Clone, Copy, PartialEq, Eq, Structural, Debug)]
pub struct ScanSession {
    pub start: Timestamp,
    pub end: Timestamp,
}

impl ScanSession {
    /// Both clock readings are well-formed.
    pub open spec fn wf(self) -> bool {
        self.start.wf() && self.end.wf()
    }

    /// How long the scan took, in whole seconds: the difference of the two
    /// clock readings (negative if the wall clock moved backwards).
    pub fn duration_seconds(&self) -> (r: i64)
        requires
            self.wf(),
        ensures
            r == self.end.epoch - self.start.epoch,
    {
        self.end.epoch - self.start.epoch
    }
}

} // verus!
