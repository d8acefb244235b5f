use hwbp::{Condition, HWBPSlot, Index, Size, DR6, DR7};

fn all_indexes() -> [Index; 4] {
    [Index::First, Index::Second, Index::Third, Index::Fourth]
}

fn all_conditions() -> [Condition; 4] {
    [
        Condition::Execute,
        Condition::Write,
        Condition::ReadWrite,
        Condition::IoReadWrite,
    ]
}

fn all_sizes() -> [Size; 4] {
    [
        Size::OneByte,
        Size::TwoBytes,
        Size::FourBytes,
        Size::EightBytes,
    ]
}

#[test]
fn size_bit_encoding_follows_x86_table() {
    // 1 byte -> 00, 2 bytes -> 01, 8 bytes -> 10, 4 bytes -> 11.
    assert_eq!(Size::OneByte.into_bits(), 0b00);
    assert_eq!(Size::TwoBytes.into_bits(), 0b01);
    assert_eq!(Size::EightBytes.into_bits(), 0b10);
    assert_eq!(Size::FourBytes.into_bits(), 0b11);
    for size in all_sizes() {
        assert_eq!(Size::from_bits(size.into_bits()), size);
    }
}

#[test]
fn condition_bit_encoding_follows_x86_table() {
    assert_eq!(Condition::Execute.into_bits(), 0b00);
    assert_eq!(Condition::Write.into_bits(), 0b01);
    assert_eq!(Condition::IoReadWrite.into_bits(), 0b10);
    assert_eq!(Condition::ReadWrite.into_bits(), 0b11);
    for condition in all_conditions() {
        assert_eq!(Condition::from_bits(condition.into_bits()), condition);
    }
}

#[test]
fn size_from_bytes_accepts_exactly_the_four_widths() {
    assert_eq!(Size::from_bytes(1), Some(Size::OneByte));
    assert_eq!(Size::from_bytes(2), Some(Size::TwoBytes));
    assert_eq!(Size::from_bytes(4), Some(Size::FourBytes));
    assert_eq!(Size::from_bytes(8), Some(Size::EightBytes));
    for bad in [0usize, 3, 5, 6, 7, 9, 16, 1024] {
        assert_eq!(Size::from_bytes(bad), None);
    }
}

#[test]
fn encode_first_slot_exact_bits() {
    let slot = HWBPSlot {
        is_enabled: true,
        address: 0x1234_5678_9ABC_DEF0,
        condition: Condition::Write,
        size: Size::FourBytes,
    };
    let mut dr7 = DR7::new();
    let mut dr0: u64 = 0;
    slot.apply_to_dr7(&Index::First, &mut dr0, &mut dr7);
    assert_eq!(dr0, 0x1234_5678_9ABC_DEF0);
    // enable bit 0, bit 10, condition 01 at bits 16..17, length 11 at 18..19
    assert_eq!(dr7.into_bits(), 0xD0401);
}

#[test]
fn encode_second_slot_exact_bits() {
    let slot = HWBPSlot {
        is_enabled: true,
        address: 0x10,
        condition: Condition::ReadWrite,
        size: Size::OneByte,
    };
    let mut dr7 = DR7::new();
    let mut dr1: u64 = 0;
    slot.apply_to_dr7(&Index::Second, &mut dr1, &mut dr7);
    assert_eq!(dr7.into_bits(), 0x0030_0404);
}

#[test]
fn encode_third_slot_execute_exact_bits() {
    let slot = HWBPSlot {
        is_enabled: true,
        address: 0x401000,
        condition: Condition::Execute,
        size: Size::OneByte,
    };
    let mut dr7 = DR7::new();
    let mut dr2: u64 = 0;
    slot.apply_to_dr7(&Index::Third, &mut dr2, &mut dr7);
    assert_eq!(dr7.into_bits(), 0x410);
}

#[test]
fn encode_fourth_slot_eight_bytes_exact_bits() {
    let slot = HWBPSlot {
        is_enabled: true,
        address: 0x20,
        condition: Condition::Write,
        size: Size::EightBytes,
    };
    let mut dr7 = DR7::new();
    let mut dr3: u64 = 0;
    slot.apply_to_dr7(&Index::Fourth, &mut dr3, &mut dr7);
    assert_eq!(dr7.into_bits(), 0x9000_0440);
}

#[test]
fn decode_first_slot_exact_fields() {
    let dr7 = DR7::from_bits(0xD0401);
    let slot = HWBPSlot::from_dr7(0xFEED, &dr7, Index::First);
    assert!(slot.is_enabled);
    assert_eq!(slot.address, 0xFEED);
    assert_eq!(slot.condition, Condition::Write);
    assert_eq!(slot.size, Size::FourBytes);
    // The other three slots of that word are disabled.
    let second = HWBPSlot::from_dr7(0, &dr7, Index::Second);
    assert!(!second.is_enabled);
    assert_eq!(second.condition, Condition::Execute);
}

#[test]
fn slot_roundtrip_every_index_condition_and_size() {
    for idx in all_indexes() {
        for condition in all_conditions() {
            for size in all_sizes() {
                for enabled in [false, true] {
                    let slot = HWBPSlot {
                        is_enabled: enabled,
                        address: 0xABCD_0123,
                        condition,
                        size,
                    };
                    let mut dr7 = DR7::from_bits(0x1234_5678_9ABC_DEF0);
                    let mut drn: u64 = 0;
                    slot.apply_to_dr7(&idx, &mut drn, &mut dr7);
                    let back = HWBPSlot::from_dr7(drn, &dr7, idx);
                    assert_eq!(back, slot);
                }
            }
        }
    }
}

#[test]
fn encode_changes_only_the_slot_region_and_bit_ten() {
    // Every bit set that the first slot's encode must preserve.
    let start: u64 = !0xF0401u64;
    let slot = HWBPSlot {
        is_enabled: true,
        address: 1,
        condition: Condition::ReadWrite,
        size: Size::TwoBytes,
    };
    let mut dr7 = DR7::from_bits(start);
    let mut drn: u64 = 0;
    slot.apply_to_dr7(&Index::First, &mut drn, &mut dr7);
    let keep: u64 = 0xFFFF_FFFF_FFF0_FBFE;
    assert_eq!(dr7.into_bits() & keep, start & keep);
    assert_eq!(dr7.into_bits() & 0x400, 0x400);
    // Same check from all-zero: nothing outside the region appears.
    let mut dr7 = DR7::from_bits(0);
    slot.apply_to_dr7(&Index::First, &mut drn, &mut dr7);
    assert_eq!(dr7.into_bits() & keep, 0);
}

#[test]
fn bit_ten_is_forced_to_one_even_when_read_as_zero() {
    let slot = HWBPSlot {
        is_enabled: false,
        address: 0,
        condition: Condition::Execute,
        size: Size::OneByte,
    };
    let mut dr7 = DR7::from_bits(0);
    let mut drn: u64 = 0;
    slot.apply_to_dr7(&Index::Second, &mut drn, &mut dr7);
    assert_eq!(dr7.into_bits() & 0x400, 0x400);
}

#[test]
fn fresh_dr7_has_only_bit_ten() {
    assert_eq!(DR7::new().into_bits(), 0x400);
}

#[test]
fn dr6_hit_flags_read_exactly() {
    let dr6 = DR6::from_bits(0b1010);
    assert!(!dr6.bp_detected(Index::First));
    assert!(dr6.bp_detected(Index::Second));
    assert!(!dr6.bp_detected(Index::Third));
    assert!(dr6.bp_detected(Index::Fourth));
}

#[test]
fn dr6_clear_clears_only_the_given_flag() {
    let mut dr6 = DR6::from_bits(0xFFFF_000F);
    dr6.clear_detected(Index::Third);
    assert_eq!(dr6.into_bits(), 0xFFFF_000B);
    assert!(!dr6.bp_detected(Index::Third));
    assert!(dr6.bp_detected(Index::First));
    assert!(dr6.bp_detected(Index::Second));
    assert!(dr6.bp_detected(Index::Fourth));
    // Bits outside the four hit flags pass through.
    assert_eq!(dr6.into_bits() & !0xFu64, 0xFFFF_0000);
}
