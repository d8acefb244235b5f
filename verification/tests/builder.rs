use hwbp::{
    BuilderError, CallbackRegistry, Condition, Context, DebugRegisters, HWBPCallback, Index, Size,
};

fn fresh_context() -> Context {
    let regs = DebugRegisters {
        dr0: 0,
        dr1: 0,
        dr2: 0,
        dr3: 0,
        dr6: 0,
        dr7: 0,
    };
    let registry = CallbackRegistry::new();
    Context::from_registers(&regs, &registry, 1)
}

fn cb() -> HWBPCallback {
    HWBPCallback { routine: 0xC0DE }
}

#[test]
fn build_fails_without_address() {
    let mut ctx = fresh_context();
    let builder = ctx
        .unused()
        .unwrap()
        .with_condition(Condition::Write)
        .with_size(Size::OneByte)
        .with_callback(cb());
    assert_eq!(
        builder.build_and_set(&mut ctx),
        Err(BuilderError::AddressNotSet)
    );
}

#[test]
fn build_fails_without_condition() {
    let mut ctx = fresh_context();
    let builder = ctx
        .unused()
        .unwrap()
        .with_address(0x1000)
        .with_size(Size::OneByte)
        .with_callback(cb());
    assert_eq!(
        builder.build_and_set(&mut ctx),
        Err(BuilderError::ConditionNotSet)
    );
}

#[test]
fn build_fails_without_callback() {
    let mut ctx = fresh_context();
    let builder = ctx
        .unused()
        .unwrap()
        .with_address(0x1000)
        .with_condition(Condition::Write)
        .with_size(Size::OneByte);
    assert_eq!(
        builder.build_and_set(&mut ctx),
        Err(BuilderError::CallbackNotSet)
    );
}

#[test]
fn build_fails_without_size_for_write_condition() {
    let mut ctx = fresh_context();
    let builder = ctx
        .unused()
        .unwrap()
        .with_address(0x1000)
        .with_condition(Condition::Write)
        .with_callback(cb());
    assert_eq!(
        builder.build_and_set(&mut ctx),
        Err(BuilderError::SizeNotSet)
    );
}

#[test]
fn build_succeeds_without_size_for_execute_condition() {
    let mut ctx = fresh_context();
    let builder = ctx
        .unused()
        .unwrap()
        .with_address(0x1000)
        .with_condition(Condition::Execute)
        .with_callback(cb());
    let bp = builder.build_and_set(&mut ctx).unwrap();
    assert_eq!(bp.slot.size, Size::OneByte);
    assert_eq!(bp.slot.condition, Condition::Execute);
    assert_eq!(bp.get_index(), Index::First);
    assert_eq!(ctx.first(), bp);
}

#[test]
fn execute_condition_forces_one_byte_over_a_set_size() {
    let mut ctx = fresh_context();
    let builder = ctx
        .unused()
        .unwrap()
        .with_address(0x1000)
        .with_condition(Condition::Execute)
        .with_size(Size::EightBytes)
        .with_callback(cb());
    let bp = builder.build_and_set(&mut ctx).unwrap();
    assert_eq!(bp.slot.size, Size::OneByte);
}

#[test]
fn failed_build_leaves_the_snapshot_untouched() {
    let mut ctx = fresh_context();
    let before = ctx;
    let builder = ctx.unused().unwrap();
    assert!(builder.build_and_set(&mut ctx).is_err());
    assert_eq!(ctx.first(), before.first());
    assert_eq!(ctx.second(), before.second());
    assert_eq!(ctx.third(), before.third());
    assert_eq!(ctx.fourth(), before.fourth());
}

#[test]
fn built_breakpoint_carries_builder_fields() {
    let mut ctx = fresh_context();
    let builder = ctx
        .unused()
        .unwrap()
        .with_enabled(true)
        .with_address(0x2000)
        .with_condition(Condition::ReadWrite)
        .with_size(Size::TwoBytes)
        .with_callback(cb());
    let bp = builder.build_and_set(&mut ctx).unwrap();
    assert!(bp.slot.is_enabled);
    assert_eq!(bp.slot.address, 0x2000);
    assert_eq!(bp.slot.condition, Condition::ReadWrite);
    assert_eq!(bp.slot.size, Size::TwoBytes);
    assert_eq!(bp.get_callback(), Some(cb()));
    assert_eq!(ctx.first(), bp);
    // The next builder binds the next slot.
    assert_eq!(ctx.unused().unwrap().index, Index::Second);
}

#[test]
fn watch_memory_sets_all_four_fields() {
    let ctx = fresh_context();
    let builder = ctx
        .unused()
        .unwrap()
        .watch_memory(0x3000, Condition::Write, Size::FourBytes, cb());
    assert_eq!(builder.address, Some(0x3000));
    assert_eq!(builder.condition, Some(Condition::Write));
    assert_eq!(builder.size, Some(Size::FourBytes));
    assert_eq!(builder.callback, Some(cb()));
    assert!(!builder.is_enabled);
}

#[test]
fn watch_memory_presets_condition_variants() {
    let ctx = fresh_context();
    let w = ctx
        .unused()
        .unwrap()
        .watch_memory_write(0x10, Size::OneByte, cb());
    assert_eq!(w.condition, Some(Condition::Write));
    let rw = ctx
        .unused()
        .unwrap()
        .watch_memory_read_write(0x10, Size::OneByte, cb());
    assert_eq!(rw.condition, Some(Condition::ReadWrite));
    let x = ctx.unused().unwrap().watch_memory_execute(0x10, cb());
    assert_eq!(x.condition, Some(Condition::Execute));
    assert_eq!(x.size, Some(Size::OneByte));
}

#[test]
fn watch_variable_accepts_only_the_four_widths() {
    let ctx = fresh_context();
    for (bytes, size) in [
        (1usize, Size::OneByte),
        (2, Size::TwoBytes),
        (4, Size::FourBytes),
        (8, Size::EightBytes),
    ] {
        let b = ctx
            .unused()
            .unwrap()
            .watch_variable(0x4000, bytes, Condition::Write, cb())
            .unwrap();
        assert_eq!(b.size, Some(size));
        assert_eq!(b.address, Some(0x4000));
        assert_eq!(b.condition, Some(Condition::Write));
    }
    for bad in [0usize, 3, 5, 12] {
        assert!(ctx
            .unused()
            .unwrap()
            .watch_variable(0x4000, bad, Condition::Write, cb())
            .is_none());
    }
}

#[test]
fn watch_variable_presets_condition_variants() {
    let ctx = fresh_context();
    let w = ctx
        .unused()
        .unwrap()
        .watch_variable_write(0x1, 4, cb())
        .unwrap();
    assert_eq!(w.condition, Some(Condition::Write));
    let rw = ctx
        .unused()
        .unwrap()
        .watch_variable_read_write(0x1, 8, cb())
        .unwrap();
    assert_eq!(rw.condition, Some(Condition::ReadWrite));
    assert!(ctx.unused().unwrap().watch_variable_write(0x1, 3, cb()).is_none());
}

#[test]
fn mutating_setters_match_fluent_setters() {
    let ctx = fresh_context();
    let mut a = ctx.unused().unwrap();
    a.set_enabled(true);
    a.set_address(0x5000);
    a.set_condition(Condition::ReadWrite);
    a.set_size(Size::EightBytes);
    a.set_callback(cb());
    let b = ctx
        .unused()
        .unwrap()
        .with_enabled(true)
        .with_address(0x5000)
        .with_condition(Condition::ReadWrite)
        .with_size(Size::EightBytes)
        .with_callback(cb());
    assert_eq!(a, b);
}
