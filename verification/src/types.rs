use vstd::prelude::*;

verus! {

/// The index of a hardware breakpoint: which of the four debug-address
/// registers (DR0..DR3) backs the slot.
#[derive(Copy, Clone, Debug, Eq, PartialEq, PartialOrd, Ord, Structural)]
pub enum Index {
    First,
    Second,
    Third,
    Fourth,
}

impl Index {
    /// The slot number (0..3) this index stands for.
    pub open spec fn as_int(self) -> int {
        match self {
            Index::First => 0,
            Index::Second => 1,
            Index::Third => 2,
            Index::Fourth => 3,
        }
    }

    /// The slot number (0..3) this index stands for.
    pub fn as_usize(self) -> (n: usize)
        ensures
            n == self.as_int(),
    {
        match self {
            Index::First => 0,
            Index::Second => 1,
            Index::Third => 2,
            Index::Fourth => 3,
        }
    }
}

/// The size (breakpoint length) of a hardware breakpoint: how many bytes
/// starting at the watched address trigger the breakpoint.
#[derive(Copy, Clone, Debug, Eq, PartialEq, PartialOrd, Ord, Structural)]
pub enum Size {
    OneByte,
    TwoBytes,
    FourBytes,
    /// Only recognized by x86-64 processors.
    EightBytes,
}

/// The two-bit DR7 length encoding of a size, per the x86 specification:
/// one byte is 00, two bytes 01, eight bytes 10, four bytes 11.
pub open spec fn size_bits(s: Size) -> u64 {
    match s {
        Size::OneByte => 0,
        Size::TwoBytes => 1,
        Size::EightBytes => 2,
        Size::FourBytes => 3,
    }
}

/// The size a two-bit DR7 length field stands for; total on 0..3.
pub open spec fn size_of_bits(bits: u64) -> Size {
    if bits == 0 {
        Size::OneByte
    } else if bits == 1 {
        Size::TwoBytes
    } else if bits == 2 {
        Size::EightBytes
    } else {
        Size::FourBytes
    }
}

/// The number of bytes a size covers.
pub open spec fn size_bytes(s: Size) -> int {
    match s {
        Size::OneByte => 1,
        Size::TwoBytes => 2,
        Size::FourBytes => 4,
        Size::EightBytes => 8,
    }
}

impl Size {
    /// The two-bit DR7 length encoding of this size.
    pub fn into_bits(self) -> (bits: u8)
        ensures
            bits as u64 == size_bits(self),
    {
        match self {
            Size::OneByte => 0,
            Size::TwoBytes => 1,
            Size::EightBytes => 2,
            Size::FourBytes => 3,
        }
    }

    /// The size a two-bit DR7 length field stands for.
    pub fn from_bits(value: u8) -> (s: Self)
        requires
            value < 4,
        ensures
            s == size_of_bits(value as u64),
    {
        if value == 0 {
            Size::OneByte
        } else if value == 1 {
            Size::TwoBytes
        } else if value == 2 {
            Size::EightBytes
        } else {
            Size::FourBytes
        }
    }

    /// The size covering exactly `value` bytes; `None` unless `value`
    /// is one of 1, 2, 4 or 8.
    pub fn from_bytes(value: usize) -> (s: Option<Self>)
        ensures
            match s {
                Some(sz) => size_bytes(sz) == value,
                None => value != 1 && value != 2 && value != 4 && value != 8,
            },
    {
        if value == 1 {
            Some(Size::OneByte)
        } else if value == 2 {
            Some(Size::TwoBytes)
        } else if value == 4 {
            Some(Size::FourBytes)
        } else if value == 8 {
            Some(Size::EightBytes)
        } else {
            None
        }
    }
}

/// The condition of a hardware breakpoint: which kind of access to the
/// watched address raises the debug exception.
#[derive(Copy, Clone, Debug, Eq, PartialEq, Structural)]
pub enum Condition {
    Execute,
    Write,
    ReadWrite,
    /// I/O read/write breakpoints require CR4.DE and have
    /// implementation-defined behavior; the encoding round-trips, but no
    /// trap behavior is promised for it.
    IoReadWrite,
}

/// The two-bit DR7 condition encoding: execute is 00, write 01,
/// I/O read/write 10, read/write 11.
pub open spec fn condition_bits(c: Condition) -> u64 {
    match c {
        Condition::Execute => 0,
        Condition::Write => 1,
        Condition::IoReadWrite => 2,
        Condition::ReadWrite => 3,
    }
}

/// The condition a two-bit DR7 condition field stands for; total on 0..3.
pub open spec fn condition_of_bits(bits: u64) -> Condition {
    if bits == 0 {
        Condition::Execute
    } else if bits == 1 {
        Condition::Write
    } else if bits == 2 {
        Condition::IoReadWrite
    } else {
        Condition::ReadWrite
    }
}

impl Condition {
    /// The two-bit DR7 condition encoding of this condition.
    pub fn into_bits(self) -> (bits: u8)
        ensures
            bits as u64 == condition_bits(self),
    {
        match self {
            Condition::Execute => 0,
            Condition::Write => 1,
            Condition::IoReadWrite => 2,
            Condition::ReadWrite => 3,
        }
    }

    /// The condition a two-bit DR7 condition field stands for.
    pub fn from_bits(value: u8) -> (c: Self)
        requires
            value < 4,
        ensures
            c == condition_of_bits(value as u64),
    {
        if value == 0 {
            Condition::Execute
        } else if value == 1 {
            Condition::Write
        } else if value == 2 {
            Condition::IoReadWrite
        } else {
            Condition::ReadWrite
        }
    }
}

/// The two-bit condition field value of a condition, as a register word.
pub fn condition_field(c: Condition) -> (bits: u64)
    ensures
        bits == condition_bits(c),
{
    match c {
        Condition::Execute => 0,
        Condition::Write => 1,
        Condition::IoReadWrite => 2,
        Condition::ReadWrite => 3,
    }
}

/// The condition a condition field value stands for; field values above
/// two bits read as read/write, as `condition_of_bits` does.
pub fn condition_from_field(bits: u64) -> (c: Condition)
    ensures
        c == condition_of_bits(bits),
{
    if bits == 0 {
        Condition::Execute
    } else if bits == 1 {
        Condition::Write
    } else if bits == 2 {
        Condition::IoReadWrite
    } else {
        Condition::ReadWrite
    }
}

/// The two-bit length field value of a size, as a register word.
pub fn size_field(s: Size) -> (bits: u64)
    ensures
        bits == size_bits(s),
{
    match s {
        Size::OneByte => 0,
        Size::TwoBytes => 1,
        Size::EightBytes => 2,
        Size::FourBytes => 3,
    }
}

/// The size a length field value stands for; field values above two
/// bits read as four bytes, as `size_of_bits` does.
pub fn size_from_field(bits: u64) -> (s: Size)
    ensures
        s == size_of_bits(bits),
{
    if bits == 0 {
        Size::OneByte
    } else if bits == 1 {
        Size::TwoBytes
    } else if bits == 2 {
        Size::EightBytes
    } else {
        Size::FourBytes
    }
}

/// The two-bit encodings of a size and of a condition are inverse to
/// their decodings, and always fit in two bits.
pub proof fn lemma_field_bits_roundtrip(s: Size, c: Condition)
    ensures
        size_of_bits(size_bits(s)) == s,
        size_bits(s) < 4,
        condition_of_bits(condition_bits(c)) == c,
        condition_bits(c) < 4,
{
}

} // verus!
