//! The batch executor's bookkeeping: a frame is an ordered list of prepared
//! operations, each a suspended command against one light.
//!
//! The caller resolves each operation's target index against its own light
//! registry, performs the transport work concurrently, and finishes each
//! operation on its light; failures of single operations are dropped, never
//! propagated.  Running a frame drains it.

use vstd::prelude::*;

verus! {

/// One prepared operation: the index of the target light in the caller's
/// registry, and the requested change.
#[derive(Debug, Clone, Copy, PartialEq, Eq, Structural)]
pub enum Operation {
    SetOn(usize, bool),
    SetBrightness(usize, u8),
    SetColor(usize, u8, u8, u8),
}

impl Operation {
    /// A prepared brightness is a percentage.
    pub open spec fn wf(&self) -> bool {
        match self {
            Operation::SetBrightness(_, b) => b <= 100,
            _ => true,
        }
    }

    /// The index of the light the operation addresses.
    pub open spec fn spec_target(&self) -> usize {
        match self {
            Operation::SetOn(t, _) => *t,
            Operation::SetBrightness(t, _) => *t,
            Operation::SetColor(t, _, _, _) => *t,
        }
    }

    /// The index of the light the operation addresses.
    pub fn target(&self) -> (r: usize)
        ensures
            r == self.spec_target(),
    {
        match self {
            Operation::SetOn(t, _) => *t,
            Operation::SetBrightness(t, _) => *t,
            Operation::SetColor(t, _, _, _) => *t,
        }
    }
}

/// An ordered sequence of prepared operations.
pub struct Frame {
    pub ops: Vec<Operation>,
}

impl Frame {
    /// Every prepared operation is well formed.
    pub open spec fn wf(&self) -> bool {
        forall|i: int| 0 <= i < self.ops@.len() ==> (#[trigger] self.ops@[i]).wf()
    }

    /// An empty frame.
    pub fn new() -> (r: Frame)
        ensures
            r.ops@.len() == 0,
            r.wf(),
    {
        Frame { ops: Vec::new() }
    }

    /// How many operations are prepared.
    pub fn len(&self) -> (r: usize)
        ensures
            r == self.ops@.len(),
    {
        self.ops.len()
    }

    /// Prepares a power change for the light at `light`.
    pub fn set_on(&mut self, light: usize, on: bool)
        ensures
            final(self).ops@ == old(self).ops@.push(Operation::SetOn(light, on)),
            old(self).wf() ==> final(self).wf(),
    {
        self.ops.push(Operation::SetOn(light, on));
    }

    /// Prepares a color change for the light at `light`.
    pub fn set_color(&mut self, light: usize, red: u8, green: u8, blue: u8)
        ensures
            final(self).ops@ == old(self).ops@.push(Operation::SetColor(light, red, green, blue)),
            old(self).wf() ==> final(self).wf(),
    {
        self.ops.push(Operation::SetColor(light, red, green, blue));
    }

    /// Prepares a brightness change for the light at `light`.
    pub fn set_brightness(&mut self, light: usize, brightness: u8)
        requires
            brightness <= 100,
        ensures
            final(self).ops@ == old(self).ops@.push(Operation::SetBrightness(light, brightness)),
            old(self).wf() ==> final(self).wf(),
    {
        self.ops.push(Operation::SetBrightness(light, brightness));
    }

    /// Drops every prepared operation without executing it.
    pub fn clear(&mut self)
        ensures
            final(self).ops@.len() == 0,
    {
        self.ops.clear();
    }

    /// Law (frame swallow, the drain half): running a frame takes every
    /// prepared operation out, unconditionally — whatever becomes of the
    /// operations afterwards, the frame itself ends empty.
    pub fn drain(&mut self) -> (r: Vec<Operation>)
        ensures
            r@ == old(self).ops@,
            final(self).ops@.len() == 0,
            old(self).wf() ==> forall|i: int| 0 <= i < r@.len() ==> (#[trigger] r@[i]).wf(),
    {
        let mut out: Vec<Operation> = Vec::new();
        core::mem::swap(&mut out, &mut self.ops);
        out
    }
}

} // verus!
