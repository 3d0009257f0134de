//! A single-slot, take-once message channel for a pending file path: the
//! process-lifecycle glue records at most one path to open (the launch
//! argument, or one forwarded by a second instance), and the editor takes
//! it exactly once. The last recorded path wins; taking empties the slot,
//! so the same path is never acted on twice.

use vstd::prelude::*;

verus! {

/// At most one pending path; `set` overwrites, `take` empties.
pub struct PendingFileSlot {
    value: Option<String>,
}

impl View for PendingFileSlot {
    type V = Option<Seq<char>>;

    closed spec fn view(&self) -> Option<Seq<char>> {
        match self.value {
            Some(ref s) => Some(s@),
            None => None,
        }
    }
}

impl PendingFileSlot {
    /// An empty slot: nothing is pending.
    pub fn new() -> (r: PendingFileSlot)
        ensures
            r@ is None,
    {
        PendingFileSlot { value: None }
    }

    /// Records a pending path, replacing any earlier one: the last writer
    /// wins.
    pub fn set(&mut self, path: String)
        ensures
            final (self)@ == Some(path@),
    {
        self.value = Some(path);
    }

    /// Takes the pending path, if any, and empties the slot, so a path is
    /// delivered at most once.
    pub fn take(&mut self) -> (r: Option<String>)
        ensures
            final (self)@ is None,
            r matches Some(s) ==> old(self)@ == Some(s@),
            r is None <==> old(self)@ is None,
    {
        self.value.take()
    }
}

} // verus!
