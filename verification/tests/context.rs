use hwbp::{
    CallbackRegistry, Condition, Context, DebugRegisters, HWBPCallback, Index, Size, HWBP,
    HWBPSlot,
};

fn zero_regs() -> DebugRegisters {
    DebugRegisters {
        dr0: 0,
        dr1: 0,
        dr2: 0,
        dr3: 0,
        dr6: 0,
        dr7: 0,
    }
}

fn bp(idx: Index, enabled: bool) -> HWBP {
    HWBP {
        idx,
        slot: HWBPSlot {
            is_enabled: enabled,
            address: 0,
            condition: Condition::Execute,
            size: Size::OneByte,
        },
        callback: None,
    }
}

fn ctx_with_enabled(e0: bool, e1: bool, e2: bool, e3: bool) -> Context {
    Context {
        bp0: bp(Index::First, e0),
        bp1: bp(Index::Second, e1),
        bp2: bp(Index::Third, e2),
        bp3: bp(Index::Fourth, e3),
    }
}

#[test]
fn from_registers_decodes_each_slot() {
    let regs = DebugRegisters {
        dr0: 0x1000,
        dr1: 0x2000,
        dr2: 0x3000,
        dr3: 0x4000,
        dr6: 0,
        dr7: 0xD0401,
    };
    let registry = CallbackRegistry::new();
    let ctx = Context::from_registers(&regs, &registry, 42);
    let first = ctx.first();
    assert_eq!(first.get_index(), Index::First);
    assert!(first.is_enabled());
    assert_eq!(first.slot.address, 0x1000);
    assert_eq!(first.slot.condition, Condition::Write);
    assert_eq!(first.slot.size, Size::FourBytes);
    assert_eq!(first.get_callback(), None);
    assert!(!ctx.second().is_enabled());
    assert_eq!(ctx.second().slot.address, 0x2000);
    assert!(!ctx.third().is_enabled());
    assert_eq!(ctx.third().slot.address, 0x3000);
    assert!(!ctx.fourth().is_enabled());
    assert_eq!(ctx.fourth().slot.address, 0x4000);
}

#[test]
fn unused_returns_lowest_disabled_slot() {
    let ctx = ctx_with_enabled(false, false, false, false);
    assert_eq!(ctx.unused().unwrap().index, Index::First);
    let ctx = ctx_with_enabled(true, false, false, false);
    assert_eq!(ctx.unused().unwrap().index, Index::Second);
    let ctx = ctx_with_enabled(true, true, false, true);
    assert_eq!(ctx.unused().unwrap().index, Index::Third);
    let ctx = ctx_with_enabled(true, true, true, false);
    assert_eq!(ctx.unused().unwrap().index, Index::Fourth);
}

#[test]
fn unused_returns_none_only_when_all_four_enabled() {
    // Slot exhaustion: four enabled slots leave nothing to hand out.
    let ctx = ctx_with_enabled(true, true, true, true);
    assert!(ctx.unused().is_none());
    // Disabling the third slot frees exactly index Third.
    let mut ctx = ctx;
    let mut third = ctx.third();
    third.disable();
    ctx.set(&third);
    let builder = ctx.unused().unwrap();
    assert_eq!(builder.index, Index::Third);
    assert!(!builder.is_enabled);
    assert_eq!(builder.address, None);
    assert_eq!(builder.condition, None);
    assert_eq!(builder.size, None);
    assert!(builder.callback.is_none());
}

#[test]
fn set_replaces_exactly_the_addressed_slot() {
    let mut ctx = ctx_with_enabled(false, false, false, false);
    let new_bp = HWBP {
        idx: Index::Second,
        slot: HWBPSlot {
            is_enabled: true,
            address: 0xBEEF,
            condition: Condition::ReadWrite,
            size: Size::TwoBytes,
        },
        callback: Some(HWBPCallback { routine: 7 }),
    };
    ctx.set(&new_bp);
    assert_eq!(ctx.second(), new_bp);
    assert_eq!(ctx.first(), bp(Index::First, false));
    assert_eq!(ctx.third(), bp(Index::Third, false));
    assert_eq!(ctx.fourth(), bp(Index::Fourth, false));
}

#[test]
fn disable_all_clears_enables_and_keeps_fields() {
    let mut ctx = ctx_with_enabled(true, true, true, true);
    let mut second = ctx.second();
    second.slot.address = 0x77;
    second.slot.condition = Condition::Write;
    second.slot.size = Size::FourBytes;
    ctx.set(&second);
    ctx.disable_all();
    assert!(!ctx.first().is_enabled());
    assert!(!ctx.second().is_enabled());
    assert!(!ctx.third().is_enabled());
    assert!(!ctx.fourth().is_enabled());
    assert_eq!(ctx.second().slot.address, 0x77);
    assert_eq!(ctx.second().slot.condition, Condition::Write);
    assert_eq!(ctx.second().slot.size, Size::FourBytes);
}

#[test]
fn enable_and_disable_toggle_only_the_flag() {
    let mut handle = bp(Index::First, false);
    handle.slot.address = 0x99;
    handle.enable();
    assert!(handle.is_enabled());
    assert_eq!(handle.slot.address, 0x99);
    handle.disable();
    assert!(!handle.is_enabled());
    assert_eq!(handle.slot.address, 0x99);
}

#[test]
fn apply_writes_registers_and_registry() {
    let mut ctx = ctx_with_enabled(false, false, false, false);
    let cb = HWBPCallback { routine: 0x5000 };
    let armed = HWBP {
        idx: Index::First,
        slot: HWBPSlot {
            is_enabled: true,
            address: 0xABC0,
            condition: Condition::Write,
            size: Size::FourBytes,
        },
        callback: Some(cb),
    };
    ctx.set(&armed);
    let mut regs = zero_regs();
    regs.dr6 = 0x9;
    let mut registry = CallbackRegistry::new();
    ctx.apply_to_registers(&mut regs, &mut registry, 42);
    assert_eq!(regs.dr0, 0xABC0);
    assert_eq!(regs.dr1, 0);
    assert_eq!(regs.dr7, 0xD0401);
    // DR6 passes through an apply untouched.
    assert_eq!(regs.dr6, 0x9);
    // The callback that was in slot 0 at apply time is what lookup returns.
    assert_eq!(registry.get(42, Index::First), Some(cb));
    assert_eq!(registry.get(42, Index::Second), None);
    // No entry appears for any other thread.
    assert_eq!(registry.get(43, Index::First), None);
}

#[test]
fn apply_then_read_back_is_identity() {
    let cb = HWBPCallback { routine: 0x1111 };
    let mut ctx = ctx_with_enabled(false, true, false, true);
    let second = HWBP {
        idx: Index::Second,
        slot: HWBPSlot {
            is_enabled: true,
            address: 0x2222,
            condition: Condition::ReadWrite,
            size: Size::EightBytes,
        },
        callback: Some(cb),
    };
    ctx.set(&second);
    let mut regs = DebugRegisters {
        dr0: 1,
        dr1: 2,
        dr2: 3,
        dr3: 4,
        dr6: 5,
        dr7: 0xFFFF_0000_0000_0000,
    };
    let mut registry = CallbackRegistry::new();
    ctx.apply_to_registers(&mut regs, &mut registry, 7);
    let back = Context::from_registers(&regs, &registry, 7);
    assert_eq!(back.first(), ctx.first());
    assert_eq!(back.second(), ctx.second());
    assert_eq!(back.third(), ctx.third());
    assert_eq!(back.fourth(), ctx.fourth());
}

#[test]
fn later_apply_overwrites_registry_entry() {
    let mut regs = zero_regs();
    let mut registry = CallbackRegistry::new();
    let old_cb = HWBPCallback { routine: 1 };
    let new_cb = HWBPCallback { routine: 2 };
    let mut ctx = ctx_with_enabled(false, false, false, false);
    let mut first = ctx.first();
    first.slot.is_enabled = true;
    first.callback = Some(old_cb);
    ctx.set(&first);
    ctx.apply_to_registers(&mut regs, &mut registry, 9);
    assert_eq!(registry.get(9, Index::First), Some(old_cb));
    first.callback = Some(new_cb);
    ctx.set(&first);
    ctx.apply_to_registers(&mut regs, &mut registry, 9);
    assert_eq!(registry.get(9, Index::First), Some(new_cb));
}

#[test]
fn clear_thread_disables_every_slot_and_keeps_fields() {
    // Arm two slots, then run the per-thread free-and-clear step.
    let mut ctx = ctx_with_enabled(false, false, false, false);
    let cb = HWBPCallback { routine: 0x40 };
    let first = HWBP {
        idx: Index::First,
        slot: HWBPSlot {
            is_enabled: true,
            address: 0xA,
            condition: Condition::Write,
            size: Size::FourBytes,
        },
        callback: Some(cb),
    };
    let fourth = HWBP {
        idx: Index::Fourth,
        slot: HWBPSlot {
            is_enabled: true,
            address: 0xB,
            condition: Condition::ReadWrite,
            size: Size::TwoBytes,
        },
        callback: None,
    };
    ctx.set(&first);
    ctx.set(&fourth);
    let mut regs = zero_regs();
    let mut registry = CallbackRegistry::new();
    ctx.apply_to_registers(&mut regs, &mut registry, 5);
    hwbp::clear_thread(&mut regs, &mut registry, 5);
    // All four local-enable bits of DR7 are clear.
    assert_eq!(regs.dr7 & 0x55, 0);
    // Addresses, conditions and sizes read back intact, just disabled.
    let back = Context::from_registers(&regs, &registry, 5);
    assert!(!back.first().is_enabled());
    assert_eq!(back.first().slot.address, 0xA);
    assert_eq!(back.first().slot.condition, Condition::Write);
    assert_eq!(back.first().slot.size, Size::FourBytes);
    assert_eq!(back.first().get_callback(), Some(cb));
    assert!(!back.fourth().is_enabled());
    assert_eq!(back.fourth().slot.address, 0xB);
}

#[test]
fn registry_install_replaces_all_four_entries_as_a_unit() {
    let mut registry = CallbackRegistry::new();
    let mut ctx = ctx_with_enabled(false, false, false, false);
    let mut regs = zero_regs();
    let a = HWBPCallback { routine: 0xA };
    let b = HWBPCallback { routine: 0xB };
    let mut first = ctx.first();
    first.callback = Some(a);
    ctx.set(&first);
    let mut third = ctx.third();
    third.callback = Some(b);
    ctx.set(&third);
    ctx.apply_to_registers(&mut regs, &mut registry, 1);
    assert_eq!(registry.get(1, Index::First), Some(a));
    assert_eq!(registry.get(1, Index::Second), None);
    assert_eq!(registry.get(1, Index::Third), Some(b));
    assert_eq!(registry.get(1, Index::Fourth), None);
    // A second apply with no callbacks wipes all four entries.
    let empty = ctx_with_enabled(false, false, false, false);
    ctx = empty;
    ctx.apply_to_registers(&mut regs, &mut registry, 1);
    assert_eq!(registry.get(1, Index::First), None);
    assert_eq!(registry.get(1, Index::Third), None);
}
