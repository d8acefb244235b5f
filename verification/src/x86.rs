use vstd::prelude::*;

use crate::types::Index;

verus! {

// DR7 layout (64 bits): bits 0/2/4/6 are the per-slot local-enable flags
// for slots 0..3; bit 10 is reserved and written as 1; bits 16..31 carry
// four 4-bit groups, one per slot, each group holding (condition:2,
// length:2), the group of slot n starting at bit 16 + 4*n. All other
// bits pass through this codec untouched.
//
// DR6 layout: bits 0..3 are the per-slot hit flags; all other bits pass
// through untouched.

/// Whether the local-enable flag of the slot is set in a DR7 word.
pub open spec fn dr7_local_enabled(dr7: u64, idx: Index) -> bool {
    match idx {
        Index::First => dr7 & 0x1 != 0,
        Index::Second => dr7 & 0x4 != 0,
        Index::Third => dr7 & 0x10 != 0,
        Index::Fourth => dr7 & 0x40 != 0,
    }
}

/// The two-bit condition field of the slot in a DR7 word.
pub open spec fn dr7_condition_bits(dr7: u64, idx: Index) -> u64 {
    match idx {
        Index::First => (dr7 >> 16) & 3,
        Index::Second => (dr7 >> 20) & 3,
        Index::Third => (dr7 >> 24) & 3,
        Index::Fourth => (dr7 >> 28) & 3,
    }
}

/// The two-bit length field of the slot in a DR7 word.
pub open spec fn dr7_length_bits(dr7: u64, idx: Index) -> u64 {
    match idx {
        Index::First => (dr7 >> 18) & 3,
        Index::Second => (dr7 >> 22) & 3,
        Index::Third => (dr7 >> 26) & 3,
        Index::Fourth => (dr7 >> 30) & 3,
    }
}

/// The bits of a DR7 word that writing the slot leaves alone: everything
/// outside the slot's own bits and the always-one reserved bit 10.
pub open spec fn dr7_keep_mask(idx: Index) -> u64 {
    match idx {
        Index::First => 0xFFFF_FFFF_FFF0_FBFE,
        Index::Second => 0xFFFF_FFFF_FF0F_FBFB,
        Index::Third => 0xFFFF_FFFF_F0FF_FBEF,
        Index::Fourth => 0xFFFF_FFFF_0FFF_FBBF,
    }
}

/// A DR7 word with the slot's local-enable flag set to the low bit of
/// `en` and its condition/length group set to the low two bits of `cond`
/// and `len`; bit 10 is forced to 1 and every other bit is kept from
/// `dr7`.
pub open spec fn dr7_encode_slot(dr7: u64, idx: Index, en: u64, cond: u64, len: u64) -> u64 {
    match idx {
        Index::First => (dr7 & !0xF0001u64) | 0x400u64 | ((en & 1) << 0) | ((cond & 3) << 16) | (
        (len & 3) << 18),
        Index::Second => (dr7 & !0xF00004u64) | 0x400u64 | ((en & 1) << 2) | ((cond & 3) << 20) | (
        (len & 3) << 22),
        Index::Third => (dr7 & !0xF000010u64) | 0x400u64 | ((en & 1) << 4) | ((cond & 3) << 24) | (
        (len & 3) << 26),
        Index::Fourth => (dr7 & !0xF0000040u64) | 0x400u64 | ((en & 1) << 6) | ((cond & 3) << 28)
            | ((len & 3) << 30),
    }
}

/// Whether two DR7 words agree on everything the codec reads for a slot:
/// the local-enable flag and the condition and length fields.
pub open spec fn dr7_slot_group_eq(a: u64, b: u64, idx: Index) -> bool {
    &&& dr7_local_enabled(a, idx) == dr7_local_enabled(b, idx)
    &&& dr7_condition_bits(a, idx) == dr7_condition_bits(b, idx)
    &&& dr7_length_bits(a, idx) == dr7_length_bits(b, idx)
}

/// Writing a slot's bits into a DR7 word behaves as a field update:
/// reading the written slot back gives the written values; bit 10 comes
/// out 1; every bit outside the slot's own region and bit 10 is
/// unchanged, so the other three slots read back unchanged.
pub proof fn lemma_dr7_encode_slot_props(dr7: u64, idx: Index, en: u64, cond: u64, len: u64)
    requires
        en < 2,
        cond < 4,
        len < 4,
    ensures
        dr7_local_enabled(dr7_encode_slot(dr7, idx, en, cond, len), idx) == (en == 1),
        dr7_condition_bits(dr7_encode_slot(dr7, idx, en, cond, len), idx) == cond,
        dr7_length_bits(dr7_encode_slot(dr7, idx, en, cond, len), idx) == len,
        dr7_encode_slot(dr7, idx, en, cond, len) & 0x400 == 0x400,
        dr7_encode_slot(dr7, idx, en, cond, len) & dr7_keep_mask(idx) == dr7 & dr7_keep_mask(idx),
        forall|j: Index|
            j != idx ==> #[trigger] dr7_slot_group_eq(
                dr7_encode_slot(dr7, idx, en, cond, len),
                dr7,
                j,
            ),
{
    match idx {
        Index::First => {
            let enc = (dr7 & !0xF0001u64) | 0x400u64 | ((en & 1) << 0) | ((cond & 3) << 16) | ((len
                & 3) << 18);
            assert((enc & 0x1 != 0) == (en == 1) && (enc >> 16) & 3 == cond && (enc >> 18) & 3
                == len && enc & 0x400 == 0x400 && enc & 0xFFFF_FFFF_FFF0_FBFEu64 == dr7
                & 0xFFFF_FFFF_FFF0_FBFEu64 && (enc & 0x4 != 0) == (dr7 & 0x4 != 0) && (enc >> 20)
                & 3 == (dr7 >> 20) & 3 && (enc >> 22) & 3 == (dr7 >> 22) & 3 && (enc & 0x10 != 0)
                == (dr7 & 0x10 != 0) && (enc >> 24) & 3 == (dr7 >> 24) & 3 && (enc >> 26) & 3 == (
            dr7 >> 26) & 3 && (enc & 0x40 != 0) == (dr7 & 0x40 != 0) && (enc >> 28) & 3 == (dr7
                >> 28) & 3 && (enc >> 30) & 3 == (dr7 >> 30) & 3) by (bit_vector)
                requires
                    en < 2,
                    cond < 4,
                    len < 4,
                    enc == (dr7 & !0xF0001u64) | 0x400u64 | ((en & 1) << 0) | ((cond & 3) << 16) | (
                    (len & 3) << 18),
            ;
        },
        Index::Second => {
            let enc = (dr7 & !0xF00004u64) | 0x400u64 | ((en & 1) << 2) | ((cond & 3) << 20) | ((
            len & 3) << 22);
            assert((enc & 0x4 != 0) == (en == 1) && (enc >> 20) & 3 == cond && (enc >> 22) & 3
                == len && enc & 0x400 == 0x400 && enc & 0xFFFF_FFFF_FF0F_FBFBu64 == dr7
                & 0xFFFF_FFFF_FF0F_FBFBu64 && (enc & 0x1 != 0) == (dr7 & 0x1 != 0) && (enc >> 16)
                & 3 == (dr7 >> 16) & 3 && (enc >> 18) & 3 == (dr7 >> 18) & 3 && (enc & 0x10 != 0)
                == (dr7 & 0x10 != 0) && (enc >> 24) & 3 == (dr7 >> 24) & 3 && (enc >> 26) & 3 == (
            dr7 >> 26) & 3 && (enc & 0x40 != 0) == (dr7 & 0x40 != 0) && (enc >> 28) & 3 == (dr7
                >> 28) & 3 && (enc >> 30) & 3 == (dr7 >> 30) & 3) by (bit_vector)
                requires
                    en < 2,
                    cond < 4,
                    len < 4,
                    enc == (dr7 & !0xF00004u64) | 0x400u64 | ((en & 1) << 2) | ((cond & 3) << 20)
                        | ((len & 3) << 22),
            ;
        },
        Index::Third => {
            let enc = (dr7 & !0xF000010u64) | 0x400u64 | ((en & 1) << 4) | ((cond & 3) << 24) | ((
            len & 3) << 26);
            assert((enc & 0x10 != 0) == (en == 1) && (enc >> 24) & 3 == cond && (enc >> 26) & 3
                == len && enc & 0x400 == 0x400 && enc & 0xFFFF_FFFF_F0FF_FBEFu64 == dr7
                & 0xFFFF_FFFF_F0FF_FBEFu64 && (enc & 0x1 != 0) == (dr7 & 0x1 != 0) && (enc >> 16)
                & 3 == (dr7 >> 16) & 3 && (enc >> 18) & 3 == (dr7 >> 18) & 3 && (enc & 0x4 != 0)
                == (dr7 & 0x4 != 0) && (enc >> 20) & 3 == (dr7 >> 20) & 3 && (enc >> 22) & 3 == (
            dr7 >> 22) & 3 && (enc & 0x40 != 0) == (dr7 & 0x40 != 0) && (enc >> 28) & 3 == (dr7
                >> 28) & 3 && (enc >> 30) & 3 == (dr7 >> 30) & 3) by (bit_vector)
                requires
                    en < 2,
                    cond < 4,
                    len < 4,
                    enc == (dr7 & !0xF000010u64) | 0x400u64 | ((en & 1) << 4) | ((cond & 3) << 24)
                        | ((len & 3) << 26),
            ;
        },
        Index::Fourth => {
            let enc = (dr7 & !0xF0000040u64) | 0x400u64 | ((en & 1) << 6) | ((cond & 3) << 28) | ((
            len & 3) << 30);
            assert((enc & 0x40 != 0) == (en == 1) && (enc >> 28) & 3 == cond && (enc >> 30) & 3
                == len && enc & 0x400 == 0x400 && enc & 0xFFFF_FFFF_0FFF_FBBFu64 == dr7
                & 0xFFFF_FFFF_0FFF_FBBFu64 && (enc & 0x1 != 0) == (dr7 & 0x1 != 0) && (enc >> 16)
                & 3 == (dr7 >> 16) & 3 && (enc >> 18) & 3 == (dr7 >> 18) & 3 && (enc & 0x4 != 0)
                == (dr7 & 0x4 != 0) && (enc >> 20) & 3 == (dr7 >> 20) & 3 && (enc >> 22) & 3 == (
            dr7 >> 22) & 3 && (enc & 0x10 != 0) == (dr7 & 0x10 != 0) && (enc >> 24) & 3 == (dr7
                >> 24) & 3 && (enc >> 26) & 3 == (dr7 >> 26) & 3) by (bit_vector)
                requires
                    en < 2,
                    cond < 4,
                    len < 4,
                    enc == (dr7 & !0xF0000040u64) | 0x400u64 | ((en & 1) << 6) | ((cond & 3) << 28)
                        | ((len & 3) << 30),
            ;
        },
    }
    assert forall|j: Index| j != idx implies #[trigger] dr7_slot_group_eq(
        dr7_encode_slot(dr7, idx, en, cond, len),
        dr7,
        j,
    ) by {
        match j {
            Index::First => {},
            Index::Second => {},
            Index::Third => {},
            Index::Fourth => {},
        }
    }
}

/// Whether the hit flag of the slot is set in a DR6 word.
pub open spec fn dr6_hit(dr6: u64, idx: Index) -> bool {
    match idx {
        Index::First => dr6 & 0x1 != 0,
        Index::Second => dr6 & 0x2 != 0,
        Index::Third => dr6 & 0x4 != 0,
        Index::Fourth => dr6 & 0x8 != 0,
    }
}

/// A DR6 word with the hit flag of the slot cleared and every other bit
/// kept.
pub open spec fn dr6_clear_hit(dr6: u64, idx: Index) -> u64 {
    match idx {
        Index::First => dr6 & 0xFFFF_FFFF_FFFF_FFFE,
        Index::Second => dr6 & 0xFFFF_FFFF_FFFF_FFFD,
        Index::Third => dr6 & 0xFFFF_FFFF_FFFF_FFFB,
        Index::Fourth => dr6 & 0xFFFF_FFFF_FFFF_FFF7,
    }
}

/// Clearing a slot's hit flag clears exactly that flag: the slot reads
/// back as not hit, the other three hit flags are unchanged, and every
/// bit outside the four hit flags is unchanged.
pub proof fn lemma_dr6_clear_hit_props(dr6: u64, idx: Index)
    ensures
        !dr6_hit(dr6_clear_hit(dr6, idx), idx),
        forall|j: Index|
            j != idx ==> #[trigger] dr6_hit(dr6_clear_hit(dr6, idx), j) == dr6_hit(dr6, j),
        dr6_clear_hit(dr6, idx) & 0xFFFF_FFFF_FFFF_FFF0 == dr6 & 0xFFFF_FFFF_FFFF_FFF0,
{
    match idx {
        Index::First => {
            assert((dr6 & 0xFFFF_FFFF_FFFF_FFFEu64) & 0x1 == 0 && (dr6 & 0xFFFF_FFFF_FFFF_FFFEu64)
                & 0x2 == dr6 & 0x2 && (dr6 & 0xFFFF_FFFF_FFFF_FFFEu64) & 0x4 == dr6 & 0x4 && (dr6
                & 0xFFFF_FFFF_FFFF_FFFEu64) & 0x8 == dr6 & 0x8 && (dr6 & 0xFFFF_FFFF_FFFF_FFFEu64)
                & 0xFFFF_FFFF_FFFF_FFF0 == dr6 & 0xFFFF_FFFF_FFFF_FFF0) by (bit_vector);
        },
        Index::Second => {
            assert((dr6 & 0xFFFF_FFFF_FFFF_FFFDu64) & 0x2 == 0 && (dr6 & 0xFFFF_FFFF_FFFF_FFFDu64)
                & 0x1 == dr6 & 0x1 && (dr6 & 0xFFFF_FFFF_FFFF_FFFDu64) & 0x4 == dr6 & 0x4 && (dr6
                & 0xFFFF_FFFF_FFFF_FFFDu64) & 0x8 == dr6 & 0x8 && (dr6 & 0xFFFF_FFFF_FFFF_FFFDu64)
                & 0xFFFF_FFFF_FFFF_FFF0 == dr6 & 0xFFFF_FFFF_FFFF_FFF0) by (bit_vector);
        },
        Index::Third => {
            assert((dr6 & 0xFFFF_FFFF_FFFF_FFFBu64) & 0x4 == 0 && (dr6 & 0xFFFF_FFFF_FFFF_FFFBu64)
                & 0x1 == dr6 & 0x1 && (dr6 & 0xFFFF_FFFF_FFFF_FFFBu64) & 0x2 == dr6 & 0x2 && (dr6
                & 0xFFFF_FFFF_FFFF_FFFBu64) & 0x8 == dr6 & 0x8 && (dr6 & 0xFFFF_FFFF_FFFF_FFFBu64)
                & 0xFFFF_FFFF_FFFF_FFF0 == dr6 & 0xFFFF_FFFF_FFFF_FFF0) by (bit_vector);
        },
        Index::Fourth => {
            assert((dr6 & 0xFFFF_FFFF_FFFF_FFF7u64) & 0x8 == 0 && (dr6 & 0xFFFF_FFFF_FFFF_FFF7u64)
                & 0x1 == dr6 & 0x1 && (dr6 & 0xFFFF_FFFF_FFFF_FFF7u64) & 0x2 == dr6 & 0x2 && (dr6
                & 0xFFFF_FFFF_FFFF_FFF7u64) & 0x4 == dr6 & 0x4 && (dr6 & 0xFFFF_FFFF_FFFF_FFF7u64)
                & 0xFFFF_FFFF_FFFF_FFF0 == dr6 & 0xFFFF_FFFF_FFFF_FFF0) by (bit_vector);
        },
    }
    assert forall|j: Index| j != idx implies #[trigger] dr6_hit(dr6_clear_hit(dr6, idx), j)
        == dr6_hit(dr6, j) by {
        match j {
            Index::First => {},
            Index::Second => {},
            Index::Third => {},
            Index::Fourth => {},
        }
    }
}

/// The debug status register DR6: which slots caused the most recent
/// debug exception, as hit flags in bits 0..3.
#[derive(Copy, Clone, Debug, Eq, PartialEq, Structural)]
pub struct DR6 {
    pub bits: u64,
}

impl DR6 {
    /// The DR6 word read from a thread context, as is.
    pub fn from_bits(bits: u64) -> (d: Self)
        ensures
            d.bits == bits,
    {
        DR6 { bits }
    }

    /// The raw DR6 word, to write back to a thread context.
    pub fn into_bits(self) -> (bits: u64)
        ensures
            bits == self.bits,
    {
        self.bits
    }

    /// Whether the hit flag of the slot is set.
    pub fn bp_detected(&self, idx: Index) -> (b: bool)
        ensures
            b == dr6_hit(self.bits, idx),
    {
        match idx {
            Index::First => self.bits & 0x1 != 0,
            Index::Second => self.bits & 0x2 != 0,
            Index::Third => self.bits & 0x4 != 0,
            Index::Fourth => self.bits & 0x8 != 0,
        }
    }

    /// Clears the hit flag of the slot, leaving all other bits as they
    /// are.
    pub fn clear_detected(&mut self, idx: Index)
        ensures
            final(self).bits == dr6_clear_hit(old(self).bits, idx),
    {
        match idx {
            Index::First => {
                self.bits = self.bits & 0xFFFF_FFFF_FFFF_FFFE;
            },
            Index::Second => {
                self.bits = self.bits & 0xFFFF_FFFF_FFFF_FFFD;
            },
            Index::Third => {
                self.bits = self.bits & 0xFFFF_FFFF_FFFF_FFFB;
            },
            Index::Fourth => {
                self.bits = self.bits & 0xFFFF_FFFF_FFFF_FFF7;
            },
        }
    }
}

/// The debug control register DR7: per-slot local-enable flags and
/// condition/length groups.
#[derive(Copy, Clone, Debug, Eq, PartialEq, Structural)]
pub struct DR7 {
    pub bits: u64,
}

impl DR7 {
    /// A freshly constructed DR7 word: every bit zero except the
    /// reserved bit 10, which the hardware wants written as 1.
    pub fn new() -> (d: Self)
        ensures
            d.bits == 0x400,
    {
        DR7 { bits: 0x400 }
    }

    /// The DR7 word read from a thread context, as is.
    pub fn from_bits(bits: u64) -> (d: Self)
        ensures
            d.bits == bits,
    {
        DR7 { bits }
    }

    /// The raw DR7 word, to write back to a thread context.
    pub fn into_bits(self) -> (bits: u64)
        ensures
            bits == self.bits,
    {
        self.bits
    }

    /// Whether the local-enable flag of the slot is set.
    pub fn bp_local(&self, idx: Index) -> (b: bool)
        ensures
            b == dr7_local_enabled(self.bits, idx),
    {
        match idx {
            Index::First => self.bits & 0x1 != 0,
            Index::Second => self.bits & 0x4 != 0,
            Index::Third => self.bits & 0x10 != 0,
            Index::Fourth => self.bits & 0x40 != 0,
        }
    }

    /// The two-bit condition field of the slot.
    pub fn bp_condition_bits(&self, idx: Index) -> (bits: u64)
        ensures
            bits == dr7_condition_bits(self.bits, idx),
    {
        match idx {
            Index::First => (self.bits >> 16) & 3,
            Index::Second => (self.bits >> 20) & 3,
            Index::Third => (self.bits >> 24) & 3,
            Index::Fourth => (self.bits >> 28) & 3,
        }
    }

    /// The two-bit length field of the slot.
    pub fn bp_length_bits(&self, idx: Index) -> (bits: u64)
        ensures
            bits == dr7_length_bits(self.bits, idx),
    {
        match idx {
            Index::First => (self.bits >> 18) & 3,
            Index::Second => (self.bits >> 22) & 3,
            Index::Third => (self.bits >> 26) & 3,
            Index::Fourth => (self.bits >> 30) & 3,
        }
    }
}

} // verus!
