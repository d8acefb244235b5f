use vstd::prelude::*;

use crate::types::{
    condition_bits, condition_field, condition_from_field, condition_of_bits,
    lemma_field_bits_roundtrip, size_bits, size_field, size_from_field, size_of_bits, Condition,
    Index, Size,
};
use crate::x86::{
    dr7_condition_bits, dr7_encode_slot, dr7_keep_mask, dr7_length_bits, dr7_local_enabled,
    dr7_slot_group_eq, lemma_dr7_encode_slot_props, DR7,
};

verus! {

/// One hardware-breakpoint slot as a plain value: whether it is enabled,
/// the watched linear address, the access condition and the watch size.
#[derive(Copy, Clone, Debug, Eq, PartialEq, Structural)]
pub struct HWBPSlot {
    pub is_enabled: bool,
    pub address: u64,
    pub condition: Condition,
    pub size: Size,
}

/// The DR7 word that holds `slot` at position `idx`: the slot's enable
/// flag and condition/length group are written, bit 10 is forced to 1,
/// and every other bit of `dr7` is kept.
pub open spec fn encode_slot_spec(dr7: u64, idx: Index, slot: HWBPSlot) -> u64 {
    dr7_encode_slot(
        dr7,
        idx,
        if slot.is_enabled {
            1
        } else {
            0
        },
        condition_bits(slot.condition),
        size_bits(slot.size),
    )
}

/// The slot that a DR7 word and the matching debug-address register hold
/// at position `idx`.
pub open spec fn decode_slot_spec(dr7: u64, drn: u64, idx: Index) -> HWBPSlot {
    HWBPSlot {
        is_enabled: dr7_local_enabled(dr7, idx),
        address: drn,
        condition: condition_of_bits(dr7_condition_bits(dr7, idx)),
        size: size_of_bits(dr7_length_bits(dr7, idx)),
    }
}

impl HWBPSlot {
    /// The slot held by a DR7 word at position `idx`, with `drn` the
    /// value of the matching debug-address register.
    pub fn from_dr7(drn: u64, dr7: &DR7, idx: Index) -> (s: Self)
        ensures
            s == decode_slot_spec(dr7.bits, drn, idx),
    {
        HWBPSlot {
            is_enabled: dr7.bp_local(idx),
            address: drn,
            condition: condition_from_field(dr7.bp_condition_bits(idx)),
            size: size_from_field(dr7.bp_length_bits(idx)),
        }
    }

    /// Writes this slot into the debug-address register and the DR7 word
    /// at position `index`, leaving every DR7 bit outside the slot's own
    /// region alone except bit 10, which is forced to 1.
    pub fn apply_to_dr7(&self, index: &Index, drn: &mut u64, dr7: &mut DR7)
        ensures
            *final(drn) == self.address,
            final(dr7).bits == encode_slot_spec(old(dr7).bits, *index, *self),
    {
        *drn = self.address;
        let en: u64 = if self.is_enabled {
            1
        } else {
            0
        };
        let cond: u64 = condition_field(self.condition);
        let len: u64 = size_field(self.size);
        match index {
            Index::First => {
                dr7.bits = (dr7.bits & !0xF0001u64) | 0x400u64 | ((en & 1) << 0) | ((cond & 3)
                    << 16) | ((len & 3) << 18);
            },
            Index::Second => {
                dr7.bits = (dr7.bits & !0xF00004u64) | 0x400u64 | ((en & 1) << 2) | ((cond & 3)
                    << 20) | ((len & 3) << 22);
            },
            Index::Third => {
                dr7.bits = (dr7.bits & !0xF000010u64) | 0x400u64 | ((en & 1) << 4) | ((cond & 3)
                    << 24) | ((len & 3) << 26);
            },
            Index::Fourth => {
                dr7.bits = (dr7.bits & !0xF0000040u64) | 0x400u64 | ((en & 1) << 6) | ((cond & 3)
                    << 28) | ((len & 3) << 30);
            },
        }
    }
}

/// Decoding a slot from the DR7 word it was encoded into gives the slot
/// back exactly, for every slot value, every starting DR7 word and every
/// index.
pub proof fn lemma_slot_roundtrip(dr7: u64, idx: Index, slot: HWBPSlot)
    ensures
        decode_slot_spec(encode_slot_spec(dr7, idx, slot), slot.address, idx) == slot,
{
    let en: u64 = if slot.is_enabled {
        1
    } else {
        0
    };
    lemma_field_bits_roundtrip(slot.size, slot.condition);
    lemma_dr7_encode_slot_props(dr7, idx, en, condition_bits(slot.condition), size_bits(slot.size));
}

/// Encoding a slot at index `idx` changes only the slot's own
/// local-enable flag and condition/length group, plus bit 10, which is
/// forced to 1; in particular the other three slots decode unchanged.
pub proof fn lemma_encode_slot_frame(dr7: u64, idx: Index, slot: HWBPSlot)
    ensures
        encode_slot_spec(dr7, idx, slot) & dr7_keep_mask(idx) == dr7 & dr7_keep_mask(idx),
        encode_slot_spec(dr7, idx, slot) & 0x400 == 0x400,
        forall|j: Index|
            j != idx ==> #[trigger] dr7_slot_group_eq(encode_slot_spec(dr7, idx, slot), dr7, j),
        forall|j: Index, drn: u64|
            j != idx ==> #[trigger] decode_slot_spec(encode_slot_spec(dr7, idx, slot), drn, j)
                == decode_slot_spec(dr7, drn, j),
{
    let en: u64 = if slot.is_enabled {
        1
    } else {
        0
    };
    lemma_field_bits_roundtrip(slot.size, slot.condition);
    lemma_dr7_encode_slot_props(dr7, idx, en, condition_bits(slot.condition), size_bits(slot.size));
    assert forall|j: Index, drn: u64| j != idx implies #[trigger] decode_slot_spec(
        encode_slot_spec(dr7, idx, slot),
        drn,
        j,
    ) == decode_slot_spec(dr7, drn, j) by {
        assert(dr7_slot_group_eq(encode_slot_spec(dr7, idx, slot), dr7, j));
    }
}

} // verus!
