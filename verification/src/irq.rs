//! Interrupt handler slots of the NPU cores.
//!
//! Each NPU core raises its own interrupt line; the entry point of core `i`
//! forwards the interrupt to the handler installed in slot `i` during probe,
//! and does nothing while the slot is empty.

use vstd::prelude::*;

verus! {

/// Number of NPU cores, and of interrupt slots.
pub const NPU_CORE_COUNT: usize = 3;

/// Storage slot holding at most one installed interrupt handler.
pub struct IrqSlot<H>(pub Option<H>);

impl<H> IrqSlot<H> {
    /// An empty slot.
    pub fn empty() -> (s: IrqSlot<H>)
        ensures
            s.0 is None,
    {
        IrqSlot(None)
    }

    /// Installs `h`, replacing whatever the slot held.
    pub fn install(&mut self, h: H)
        ensures
            final(self).0 == Some(h),
    {
        self.0 = Some(h);
    }

    /// The handler an interrupt is forwarded to, if one is installed.
    pub fn handler(&self) -> (r: Option<&H>)
        ensures
            r matches Some(h) ==> self.0 == Some(*h),
            r is None ==> self.0 is None,
    {
        match &self.0 {
            Some(h) => Some(h),
            None => None,
        }
    }
}

} // verus!
