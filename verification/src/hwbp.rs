use vstd::prelude::*;

use crate::callbacks::{spec_lookup, CallbackRegistry};
use crate::hwbp_slot::{decode_slot_spec, encode_slot_spec, HWBPSlot};
use crate::types::Index;
use crate::x86::DR7;

verus! {

/// A callback to run when a hardware breakpoint is hit, named by the
/// address of its routine. The routine takes the trapped thread's CPU
/// context and may change its registers; the shell that installs the
/// exception handler turns this value back into the function it names
/// and calls it. Callbacks must be plain functions with no captured
/// state, so an address identifies one completely.
#[derive(Copy, Clone, Debug, Eq, PartialEq, Structural)]
pub struct HWBPCallback {
    pub routine: usize,
}

/// A hardware breakpoint bound to a specific slot index: the slot value
/// together with the callback to run on a hit, if any.
#[derive(Copy, Clone, Debug, Eq, PartialEq, Structural)]
pub struct HWBP {
    pub idx: Index,
    pub slot: HWBPSlot,
    pub callback: Option<HWBPCallback>,
}

impl HWBP {
    /// Replaces the slot value and the callback, keeping the bound
    /// index.
    pub(crate) fn set(&mut self, slot: HWBPSlot, callback: HWBPCallback)
        ensures
            *final(self) == (HWBP { idx: old(self).idx, slot, callback: Some(callback) }),
    {
        self.slot = slot;
        self.callback = Some(callback);
    }

    /// The breakpoint a thread context holds at position `idx`: the slot
    /// decoded from the DR7 word and the matching debug-address
    /// register, and the callback the registry holds for the thread at
    /// that index.
    pub fn from_context(
        idx: Index,
        dr7: &DR7,
        drn: u64,
        registry: &CallbackRegistry,
        thread_id: u32,
    ) -> (bp: Self)
        ensures
            bp.idx == idx,
            bp.slot == decode_slot_spec(dr7.bits, drn, idx),
            bp.callback == spec_lookup(registry@, thread_id, idx),
    {
        let slot = HWBPSlot::from_dr7(drn, dr7, idx);
        let callback = registry.get(thread_id, idx);
        HWBP { idx, slot, callback }
    }

    /// Writes the breakpoint's slot into the debug-address register and
    /// the DR7 word at its bound index.
    pub fn apply_to_context(&self, drn: &mut u64, dr7: &mut DR7)
        ensures
            *final(drn) == self.slot.address,
            final(dr7).bits == encode_slot_spec(old(dr7).bits, self.idx, self.slot),
    {
        self.slot.apply_to_dr7(&self.idx, drn, dr7);
    }

    /// Gets the index of the hardware breakpoint.
    pub fn get_index(&self) -> (idx: Index)
        ensures
            idx == self.idx,
    {
        self.idx
    }

    /// Gets the callback of the hardware breakpoint.
    pub fn get_callback(&self) -> (c: Option<HWBPCallback>)
        ensures
            c == self.callback,
    {
        self.callback
    }

    /// Gets whether the hardware breakpoint is enabled.
    pub fn is_enabled(&self) -> (b: bool)
        ensures
            b == self.slot.is_enabled,
    {
        self.slot.is_enabled
    }

    /// Enables the hardware breakpoint, leaving every other field as it
    /// is.
    pub fn enable(&mut self)
        ensures
            *final(self) == (HWBP {
                slot: HWBPSlot { is_enabled: true, ..old(self).slot },
                ..*old(self)
            }),
    {
        self.slot.is_enabled = true;
    }

    /// Disables the hardware breakpoint, leaving every other field as it
    /// is.
    pub fn disable(&mut self)
        ensures
            *final(self) == (HWBP {
                slot: HWBPSlot { is_enabled: false, ..old(self).slot },
                ..*old(self)
            }),
    {
        self.slot.is_enabled = false;
    }
}

} // verus!
