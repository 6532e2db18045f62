use vstd::prelude::*;

verus! {

/// Allocator of request identifiers: each identifier it hands out is one
/// greater than the one before, starting from 1.
pub struct ReqId(pub i32);

impl ReqId {
    /// An allocator that has handed out nothing yet.
    pub fn new() -> (r: ReqId)
        ensures
            r.0 == 0,
    {
        ReqId(0)
    }

    /// Whether another identifier can still be handed out.
    pub open spec fn can_inc(&self) -> bool {
        0 <= self.0 < i32::MAX
    }

    /// Hands out the next identifier: one more than the last one.
    pub fn inc(&mut self) -> (r: i32)
        requires
            old(self).can_inc(),
        ensures
            r == old(self).0 + 1,
            final(self).0 == r,
            r > old(self).0,
    {
        self.0 = self.0 + 1;
        self.0
    }

    /// Whether another identifier can still be handed out.
    pub fn has_next(&self) -> (r: bool)
        ensures
            r == self.can_inc(),
    {
        0 <= self.0 && self.0 < i32::MAX
    }
}

} // verus!
