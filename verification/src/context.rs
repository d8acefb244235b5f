use vstd::prelude::*;

use crate::callbacks::{lemma_lookup_after_install, spec_lookup, CallbackRegistry, HWBPCallbackList};
use crate::hwbp::{HWBPCallback, HWBP};
use crate::hwbp_builder::HWBPBuilder;
use crate::hwbp_slot::{
    decode_slot_spec, encode_slot_spec, lemma_encode_slot_frame, lemma_slot_roundtrip, HWBPSlot,
};
use crate::types::Index;
use crate::x86::{dr7_local_enabled, DR7};

verus! {

/// The debug-register class of one thread's CPU context, as plain
/// values: the four debug-address registers, the status register DR6
/// and the control register DR7. The shell reads these from the OS
/// thread context, hands them to this crate, and writes the result
/// back; every other context field passes through untouched.
#[derive(Copy, Clone, Debug, Eq, PartialEq, Structural)]
pub struct DebugRegisters {
    pub dr0: u64,
    pub dr1: u64,
    pub dr2: u64,
    pub dr3: u64,
    pub dr6: u64,
    pub dr7: u64,
}

impl DebugRegisters {
    /// The debug-address register of the slot.
    pub open spec fn drn(self, idx: Index) -> u64 {
        match idx {
            Index::First => self.dr0,
            Index::Second => self.dr1,
            Index::Third => self.dr2,
            Index::Fourth => self.dr3,
        }
    }
}

/// One thread's view of its four hardware-breakpoint slots, always
/// indexed by slot index. Created from a thread's debug registers,
/// mutated by the builder or by `set` / `disable_all`, and written back
/// by an apply operation.
#[derive(Copy, Clone, Debug, Eq, PartialEq, Structural)]
#[verifier::ext_equal]
pub struct Context {
    pub bp0: HWBP,
    pub bp1: HWBP,
    pub bp2: HWBP,
    pub bp3: HWBP,
}

/// The snapshot that a thread's debug registers and a registry state
/// hold for the thread: each slot decoded from DR7 and its
/// debug-address register, paired with the thread's registered callback
/// for that slot.
pub open spec fn snapshot_spec(
    regs: DebugRegisters,
    m: Map<u32, HWBPCallbackList>,
    thread_id: u32,
) -> Context {
    Context {
        bp0: HWBP {
            idx: Index::First,
            slot: decode_slot_spec(regs.dr7, regs.dr0, Index::First),
            callback: spec_lookup(m, thread_id, Index::First),
        },
        bp1: HWBP {
            idx: Index::Second,
            slot: decode_slot_spec(regs.dr7, regs.dr1, Index::Second),
            callback: spec_lookup(m, thread_id, Index::Second),
        },
        bp2: HWBP {
            idx: Index::Third,
            slot: decode_slot_spec(regs.dr7, regs.dr2, Index::Third),
            callback: spec_lookup(m, thread_id, Index::Third),
        },
        bp3: HWBP {
            idx: Index::Fourth,
            slot: decode_slot_spec(regs.dr7, regs.dr3, Index::Fourth),
            callback: spec_lookup(m, thread_id, Index::Fourth),
        },
    }
}

impl Context {
    /// Each breakpoint is bound to the slot it occupies. Constructors
    /// establish this and every operation preserves it.
    pub open spec fn wf(self) -> bool {
        &&& self.bp0.idx == Index::First
        &&& self.bp1.idx == Index::Second
        &&& self.bp2.idx == Index::Third
        &&& self.bp3.idx == Index::Fourth
    }

    /// The breakpoint at a slot index.
    pub open spec fn bp_at(self, idx: Index) -> HWBP {
        match idx {
            Index::First => self.bp0,
            Index::Second => self.bp1,
            Index::Third => self.bp2,
            Index::Fourth => self.bp3,
        }
    }

    /// This snapshot with the breakpoint at `idx` replaced by `bp`.
    pub open spec fn with_bp(self, idx: Index, bp: HWBP) -> Context {
        match idx {
            Index::First => Context { bp0: bp, ..self },
            Index::Second => Context { bp1: bp, ..self },
            Index::Third => Context { bp2: bp, ..self },
            Index::Fourth => Context { bp3: bp, ..self },
        }
    }

    /// The lowest index whose slot is disabled, or `None` when all four
    /// slots are enabled.
    pub open spec fn first_unused(self) -> Option<Index> {
        if !self.bp0.slot.is_enabled {
            Some(Index::First)
        } else if !self.bp1.slot.is_enabled {
            Some(Index::Second)
        } else if !self.bp2.slot.is_enabled {
            Some(Index::Third)
        } else if !self.bp3.slot.is_enabled {
            Some(Index::Fourth)
        } else {
            None
        }
    }

    /// This snapshot with every slot's enabled flag cleared and every
    /// other field kept.
    pub open spec fn all_disabled(self) -> Context {
        Context {
            bp0: HWBP { slot: HWBPSlot { is_enabled: false, ..self.bp0.slot }, ..self.bp0 },
            bp1: HWBP { slot: HWBPSlot { is_enabled: false, ..self.bp1.slot }, ..self.bp1 },
            bp2: HWBP { slot: HWBPSlot { is_enabled: false, ..self.bp2.slot }, ..self.bp2 },
            bp3: HWBP { slot: HWBPSlot { is_enabled: false, ..self.bp3.slot }, ..self.bp3 },
        }
    }

    /// The four callbacks of this snapshot, one per slot, each `None`
    /// when the slot carries no callback.
    pub open spec fn spec_callback_list(self) -> HWBPCallbackList {
        HWBPCallbackList {
            first: self.bp0.callback,
            second: self.bp1.callback,
            third: self.bp2.callback,
            fourth: self.bp3.callback,
        }
    }

    /// The debug registers after this snapshot is overlaid: each
    /// debug-address register holds its slot's address, the four DR7
    /// slot regions hold the four slots with bit 10 forced to 1, and
    /// DR6 and the non-slot DR7 bits pass through from the read value.
    pub open spec fn apply_regs_spec(self, regs: DebugRegisters) -> DebugRegisters {
        DebugRegisters {
            dr0: self.bp0.slot.address,
            dr1: self.bp1.slot.address,
            dr2: self.bp2.slot.address,
            dr3: self.bp3.slot.address,
            dr6: regs.dr6,
            dr7: encode_slot_spec(
                encode_slot_spec(
                    encode_slot_spec(
                        encode_slot_spec(regs.dr7, Index::First, self.bp0.slot),
                        Index::Second,
                        self.bp1.slot,
                    ),
                    Index::Third,
                    self.bp2.slot,
                ),
                Index::Fourth,
                self.bp3.slot,
            ),
        }
    }
}

impl Context {
    /// The snapshot a thread's debug registers hold, with each slot's
    /// callback taken from the registry entry of the thread.
    pub fn from_registers(
        regs: &DebugRegisters,
        registry: &CallbackRegistry,
        thread_id: u32,
    ) -> (ctx: Self)
        ensures
            ctx == snapshot_spec(*regs, registry@, thread_id),
            ctx.wf(),
    {
        let dr7 = DR7::from_bits(regs.dr7);
        Context {
            bp0: HWBP::from_context(Index::First, &dr7, regs.dr0, registry, thread_id),
            bp1: HWBP::from_context(Index::Second, &dr7, regs.dr1, registry, thread_id),
            bp2: HWBP::from_context(Index::Third, &dr7, regs.dr2, registry, thread_id),
            bp3: HWBP::from_context(Index::Fourth, &dr7, regs.dr3, registry, thread_id),
        }
    }

    /// Gets a builder for an unused hardware breakpoint: one bound to
    /// the lowest-index slot whose enabled flag is false, with every
    /// other builder field unset.
    ///
    /// Returns `None` if there are no unused hardware breakpoints.
    pub fn unused(&self) -> (b: Option<HWBPBuilder>)
        ensures
            match b {
                Some(builder) => self.first_unused() == Some(builder.index) && builder
                    == HWBPBuilder::new_spec(builder.index),
                None => self.first_unused() is None,
            },
    {
        if !self.bp0.is_enabled() {
            Some(HWBPBuilder::new(Index::First))
        } else if !self.bp1.is_enabled() {
            Some(HWBPBuilder::new(Index::Second))
        } else if !self.bp2.is_enabled() {
            Some(HWBPBuilder::new(Index::Third))
        } else if !self.bp3.is_enabled() {
            Some(HWBPBuilder::new(Index::Fourth))
        } else {
            None
        }
    }

    /// Gets the first hardware breakpoint.
    pub fn first(&self) -> (bp: HWBP)
        ensures
            bp == self.bp0,
    {
        self.bp0
    }

    /// Gets the second hardware breakpoint.
    pub fn second(&self) -> (bp: HWBP)
        ensures
            bp == self.bp1,
    {
        self.bp1
    }

    /// Gets the third hardware breakpoint.
    pub fn third(&self) -> (bp: HWBP)
        ensures
            bp == self.bp2,
    {
        self.bp2
    }

    /// Gets the fourth hardware breakpoint.
    pub fn fourth(&self) -> (bp: HWBP)
        ensures
            bp == self.bp3,
    {
        self.bp3
    }

    /// Replaces the slot at the breakpoint's own index with the
    /// breakpoint.
    pub fn set(&mut self, hwbp: &HWBP)
        ensures
            *final(self) == old(self).with_bp(hwbp.idx, *hwbp),
    {
        match hwbp.get_index() {
            Index::First => {
                self.bp0 = *hwbp;
            },
            Index::Second => {
                self.bp1 = *hwbp;
            },
            Index::Third => {
                self.bp2 = *hwbp;
            },
            Index::Fourth => {
                self.bp3 = *hwbp;
            },
        }
    }

    /// Disables all hardware breakpoints, leaving addresses, conditions
    /// and sizes intact.
    pub fn disable_all(&mut self)
        ensures
            *final(self) == old(self).all_disabled(),
    {
        let mut bp = self.bp0;
        bp.disable();
        self.bp0 = bp;
        let mut bp = self.bp1;
        bp.disable();
        self.bp1 = bp;
        let mut bp = self.bp2;
        bp.disable();
        self.bp2 = bp;
        let mut bp = self.bp3;
        bp.disable();
        self.bp3 = bp;
    }

    /// Installs a built slot and callback at `index` and returns the
    /// resulting breakpoint handle.
    pub(crate) fn build_and_set_hwbp(
        &mut self,
        index: Index,
        slot: HWBPSlot,
        callback: HWBPCallback,
    ) -> (bp: HWBP)
        requires
            old(self).wf(),
        ensures
            bp == (HWBP { idx: index, slot, callback: Some(callback) }),
            *final(self) == old(self).with_bp(index, bp),
            final(self).wf(),
    {
        let new_bp = HWBP { idx: index, slot, callback: Some(callback) };
        self.set(&new_bp);
        new_bp
    }

    /// Reads the four callbacks of this snapshot as a list, ready to
    /// install for a thread.
    pub fn callback_list(&self) -> (l: HWBPCallbackList)
        ensures
            l == self.spec_callback_list(),
    {
        HWBPCallbackList {
            first: self.bp0.get_callback(),
            second: self.bp1.get_callback(),
            third: self.bp2.get_callback(),
            fourth: self.bp3.get_callback(),
        }
    }

    /// Applies the snapshot to one thread's state: overlays the four
    /// slots into the debug registers and overwrites the thread's
    /// registry entry with the four callbacks. The shell reads the
    /// registers from the OS before this call and writes them back
    /// after it, so the registry install precedes the context write and
    /// a trap that sees the new register values also sees the new
    /// callbacks.
    pub fn apply_to_registers(
        &self,
        regs: &mut DebugRegisters,
        registry: &mut CallbackRegistry,
        thread_id: u32,
    )
        requires
            self.wf(),
        ensures
            *final(regs) == self.apply_regs_spec(*old(regs)),
            final(registry)@ == old(registry)@.insert(thread_id, self.spec_callback_list()),
    {
        let mut dr7 = DR7::from_bits(regs.dr7);
        let mut dr0: u64 = regs.dr0;
        let mut dr1: u64 = regs.dr1;
        let mut dr2: u64 = regs.dr2;
        let mut dr3: u64 = regs.dr3;
        self.bp0.apply_to_context(&mut dr0, &mut dr7);
        self.bp1.apply_to_context(&mut dr1, &mut dr7);
        self.bp2.apply_to_context(&mut dr2, &mut dr7);
        self.bp3.apply_to_context(&mut dr3, &mut dr7);
        regs.dr0 = dr0;
        regs.dr1 = dr1;
        regs.dr2 = dr2;
        regs.dr3 = dr3;
        regs.dr7 = dr7.into_bits();
        registry.install(thread_id, self.callback_list());
    }
}

/// Overlaying a snapshot writes each slot exactly: decoding any index
/// from the resulting registers gives that slot of the snapshot back.
pub proof fn lemma_apply_decodes(ctx: Context, regs: DebugRegisters)
    ensures
        forall|j: Index| #![trigger ctx.bp_at(j)]
            decode_slot_spec(
                ctx.apply_regs_spec(regs).dr7,
                ctx.apply_regs_spec(regs).drn(j),
                j,
            ) == ctx.bp_at(j).slot,
{
    let d0 = regs.dr7;
    let d1 = encode_slot_spec(d0, Index::First, ctx.bp0.slot);
    let d2 = encode_slot_spec(d1, Index::Second, ctx.bp1.slot);
    let d3 = encode_slot_spec(d2, Index::Third, ctx.bp2.slot);
    lemma_slot_roundtrip(d0, Index::First, ctx.bp0.slot);
    lemma_slot_roundtrip(d1, Index::Second, ctx.bp1.slot);
    lemma_slot_roundtrip(d2, Index::Third, ctx.bp2.slot);
    lemma_slot_roundtrip(d3, Index::Fourth, ctx.bp3.slot);
    lemma_encode_slot_frame(d1, Index::Second, ctx.bp1.slot);
    lemma_encode_slot_frame(d2, Index::Third, ctx.bp2.slot);
    lemma_encode_slot_frame(d3, Index::Fourth, ctx.bp3.slot);
    assert forall|j: Index| #![trigger ctx.bp_at(j)]
        decode_slot_spec(ctx.apply_regs_spec(regs).dr7, ctx.apply_regs_spec(regs).drn(j), j)
            == ctx.bp_at(j).slot by {
        match j {
            Index::First => {},
            Index::Second => {},
            Index::Third => {},
            Index::Fourth => {},
        }
    }
}

/// Round trip through one thread's state: a snapshot applied to a
/// thread's registers and registry, then re-read for that thread, is
/// the identity. In particular any breakpoint produced by the builder
/// reads back from the applied snapshot with identical address,
/// condition, size, enabled flag and callback.
pub proof fn lemma_apply_roundtrip(
    ctx: Context,
    regs: DebugRegisters,
    m: Map<u32, HWBPCallbackList>,
    thread_id: u32,
)
    requires
        ctx.wf(),
    ensures
        snapshot_spec(
            ctx.apply_regs_spec(regs),
            m.insert(thread_id, ctx.spec_callback_list()),
            thread_id,
        ) == ctx,
{
    lemma_apply_decodes(ctx, regs);
    assert(ctx.bp_at(Index::First) == ctx.bp0);
    assert(ctx.bp_at(Index::Second) == ctx.bp1);
    assert(ctx.bp_at(Index::Third) == ctx.bp2);
    assert(ctx.bp_at(Index::Fourth) == ctx.bp3);
    lemma_lookup_after_install(m, thread_id, ctx.spec_callback_list(), Index::First, thread_id);
    lemma_lookup_after_install(m, thread_id, ctx.spec_callback_list(), Index::Second, thread_id);
    lemma_lookup_after_install(m, thread_id, ctx.spec_callback_list(), Index::Third, thread_id);
    lemma_lookup_after_install(m, thread_id, ctx.spec_callback_list(), Index::Fourth, thread_id);
    assert(snapshot_spec(
        ctx.apply_regs_spec(regs),
        m.insert(thread_id, ctx.spec_callback_list()),
        thread_id,
    ) =~= ctx);
}

/// After an apply for a thread succeeds, a lookup for that thread at
/// any slot returns the callback that was in the slot at apply time.
pub proof fn lemma_lookup_after_apply(
    ctx: Context,
    m: Map<u32, HWBPCallbackList>,
    thread_id: u32,
    idx: Index,
)
    requires
        ctx.wf(),
    ensures
        spec_lookup(m.insert(thread_id, ctx.spec_callback_list()), thread_id, idx) == ctx.bp_at(
            idx,
        ).callback,
{
    lemma_lookup_after_install(m, thread_id, ctx.spec_callback_list(), idx, thread_id);
    match idx {
        Index::First => {},
        Index::Second => {},
        Index::Third => {},
        Index::Fourth => {},
    }
}

/// `unused` picks the slot that the lowest-index disabled breakpoint
/// occupies: the returned index is disabled, every lower index is
/// enabled, and no builder comes back exactly when all four slots are
/// enabled.
pub proof fn lemma_first_unused(ctx: Context)
    ensures
        match ctx.first_unused() {
            Some(idx) => !ctx.bp_at(idx).slot.is_enabled && forall|j: Index|
                j.as_int() < idx.as_int() ==> #[trigger] ctx.bp_at(j).slot.is_enabled,
            None => forall|j: Index| #[trigger] ctx.bp_at(j).slot.is_enabled,
        },
{
    match ctx.first_unused() {
        Some(idx) => {
            assert forall|j: Index| j.as_int() < idx.as_int() implies #[trigger] ctx.bp_at(
                j,
            ).slot.is_enabled by {
                match j {
                    Index::First => {},
                    Index::Second => {},
                    Index::Third => {},
                    Index::Fourth => {},
                }
            }
        },
        None => {
            assert forall|j: Index| #[trigger] ctx.bp_at(j).slot.is_enabled by {
                match j {
                    Index::First => {},
                    Index::Second => {},
                    Index::Third => {},
                    Index::Fourth => {},
                }
            }
        },
    }
}

/// The per-thread step of freeing and clearing the library: reads the
/// thread's snapshot, disables all four slots, and applies the result
/// back. Afterwards every local-enable bit of DR7 is clear, while
/// addresses, conditions, sizes and callbacks are kept.
pub fn clear_thread(regs: &mut DebugRegisters, registry: &mut CallbackRegistry, thread_id: u32)
    ensures
        *final(regs) == snapshot_spec(*old(regs), old(registry)@, thread_id).all_disabled()
            .apply_regs_spec(*old(regs)),
        final(registry)@ == old(registry)@.insert(
            thread_id,
            snapshot_spec(*old(regs), old(registry)@, thread_id).spec_callback_list(),
        ),
        forall|j: Index| !dr7_local_enabled(final(regs).dr7, j),
{
    let mut ctx = Context::from_registers(regs, registry, thread_id);
    ctx.disable_all();
    ctx.apply_to_registers(regs, registry, thread_id);
    proof {
        lemma_apply_decodes(ctx, *old(regs));
        assert forall|j: Index| !dr7_local_enabled(regs.dr7, j) by {
            assert(decode_slot_spec(regs.dr7, regs.drn(j), j) == ctx.bp_at(j).slot);
            match j {
                Index::First => {},
                Index::Second => {},
                Index::Third => {},
                Index::Fourth => {},
            }
        }
    }
}

} // verus!
