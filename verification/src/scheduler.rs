//! The render scheduler: coalesces any number of redraw requests into at
//! most one redraw per tick through a single dirty flag.

use vstd::prelude::*;

verus! {

/// The dirty flag. Marking is idempotent; taking reads and clears the
/// flag in one step, so each flag-set pays for at most one redraw however
/// many requests were coalesced into it.
#[derive(Clone, Copy, PartialEq, Eq, Structural, Debug)]
pub struct RenderScheduler {
    /// Whether a redraw is owed before the next frame is up to date.
    pub dirty: bool,
}

impl RenderScheduler {
    /// A fresh scheduler owes no redraw.
    pub fn new() -> (s: RenderScheduler)
        ensures
            !s.dirty,
    {
        RenderScheduler { dirty: false }
    }

    /// Requests a redraw; repeated requests coalesce into the same flag.
    pub fn mark_dirty(&mut self)
        ensures
            final(self).dirty,
    {
        self.dirty = true;
    }

    /// Returns whether a redraw is owed and clears the flag, so the next
    /// call without an intervening `mark_dirty` returns false.
    pub fn take_dirty(&mut self) -> (was: bool)
        ensures
            was == old(self).dirty,
            !final(self).dirty,
    {
        let was = self.dirty;
        self.dirty = false;
        was
    }

    /// Reads the flag without clearing it.
    pub fn is_dirty(&self) -> (b: bool)
        ensures
            b == self.dirty,
    {
        self.dirty
    }
}

} // verus!
