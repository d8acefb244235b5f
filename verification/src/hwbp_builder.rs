use vstd::prelude::*;

use crate::context::Context;
use crate::error::BuilderError;
use crate::hwbp::{HWBPCallback, HWBP};
use crate::hwbp_slot::HWBPSlot;
use crate::types::{size_bytes, Condition, Index, Size};

verus! {

/// A builder for hardware breakpoints, bound to one slot index. All
/// fields other than the index start unset; the terminal build
/// operation validates them and installs the result into a snapshot.
#[derive(Copy, Clone, Debug, Eq, PartialEq, Structural)]
pub struct HWBPBuilder {
    pub index: Index,
    pub is_enabled: bool,
    pub address: Option<u64>,
    pub condition: Option<Condition>,
    pub size: Option<Size>,
    pub callback: Option<HWBPCallback>,
}

impl HWBPBuilder {
    /// A fresh builder bound to `index`: disabled, with no field set.
    pub open spec fn new_spec(index: Index) -> HWBPBuilder {
        HWBPBuilder {
            index,
            is_enabled: false,
            address: None,
            condition: None,
            size: None,
            callback: None,
        }
    }

    pub(crate) fn new(index: Index) -> (b: Self)
        ensures
            b == Self::new_spec(index),
    {
        HWBPBuilder {
            index,
            is_enabled: false,
            address: None,
            condition: None,
            size: None,
            callback: None,
        }
    }

    /// The outcome the terminal build operation owes for this builder:
    /// the first missing mandatory field, checked in the order address,
    /// condition, callback, then size — size only when the condition
    /// does not force one — or success when none is missing.
    pub open spec fn spec_build_result(self) -> Result<(), BuilderError> {
        if self.address is None {
            Err(BuilderError::AddressNotSet)
        } else if self.condition is None {
            Err(BuilderError::ConditionNotSet)
        } else if self.callback is None {
            Err(BuilderError::CallbackNotSet)
        } else if self.condition != Some(Condition::Execute) && self.size is None {
            Err(BuilderError::SizeNotSet)
        } else {
            Ok(())
        }
    }

    /// The slot a successful build produces: the builder's fields, with
    /// the size forced to one byte when the condition is execute,
    /// whatever size was set.
    pub open spec fn built_slot(self) -> HWBPSlot
        recommends
            self.spec_build_result() is Ok,
    {
        HWBPSlot {
            is_enabled: self.is_enabled,
            address: self.address.unwrap(),
            condition: self.condition.unwrap(),
            size: if self.condition == Some(Condition::Execute) {
                Size::OneByte
            } else {
                self.size.unwrap()
            },
        }
    }

    /// Builds and sets the hardware breakpoint.
    ///
    /// Fails when the address, the condition or the callback was never
    /// set, and, unless the condition is execute, when the size was
    /// never set; an execute breakpoint is built with a one-byte size
    /// regardless of any set value. On success the built slot and
    /// callback are installed into the snapshot at the bound index and
    /// the breakpoint handle is returned; on failure the snapshot is
    /// untouched.
    pub fn build_and_set(self, context: &mut Context) -> (r: Result<HWBP, BuilderError>)
        requires
            old(context).wf(),
        ensures
            match self.spec_build_result() {
                Ok(()) => {
                    &&& r matches Ok(bp) && bp == (HWBP {
                        idx: self.index,
                        slot: self.built_slot(),
                        callback: self.callback,
                    })
                    &&& *final(context) == old(context).with_bp(
                        self.index,
                        HWBP { idx: self.index, slot: self.built_slot(), callback: self.callback },
                    )
                    &&& final(context).wf()
                },
                Err(e) => r == Err::<HWBP, BuilderError>(e) && *final(context) == *old(context),
            },
    {
        let address = match self.address {
            Some(addr) => addr,
            None => {
                return Err(BuilderError::AddressNotSet);
            },
        };
        let condition = match self.condition {
            Some(condition) => condition,
            None => {
                return Err(BuilderError::ConditionNotSet);
            },
        };
        let callback = match self.callback {
            Some(callback) => callback,
            None => {
                return Err(BuilderError::CallbackNotSet);
            },
        };
        let slot = if condition != Condition::Execute {
            let size = match self.size {
                Some(size) => size,
                None => {
                    return Err(BuilderError::SizeNotSet);
                },
            };
            HWBPSlot { is_enabled: self.is_enabled, address, condition, size }
        } else {
            HWBPSlot { is_enabled: self.is_enabled, address, condition, size: Size::OneByte }
        };
        Ok(context.build_and_set_hwbp(self.index, slot, callback))
    }
}

impl HWBPBuilder {
    /// Watch a memory address for a specific condition.
    pub fn watch_memory(
        self,
        addr: u64,
        condition: Condition,
        size: Size,
        callback: HWBPCallback,
    ) -> (b: Self)
        ensures
            b == (HWBPBuilder {
                address: Some(addr),
                condition: Some(condition),
                size: Some(size),
                callback: Some(callback),
                ..self
            }),
    {
        HWBPBuilder {
            address: Some(addr),
            condition: Some(condition),
            size: Some(size),
            callback: Some(callback),
            ..self
        }
    }

    /// Watch a memory address for write access.
    pub fn watch_memory_write(self, addr: u64, size: Size, callback: HWBPCallback) -> (b: Self)
        ensures
            b == (HWBPBuilder {
                address: Some(addr),
                condition: Some(Condition::Write),
                size: Some(size),
                callback: Some(callback),
                ..self
            }),
    {
        self.watch_memory(addr, Condition::Write, size, callback)
    }

    /// Watch a memory address for read and write access.
    pub fn watch_memory_read_write(self, addr: u64, size: Size, callback: HWBPCallback) -> (b:
        Self)
        ensures
            b == (HWBPBuilder {
                address: Some(addr),
                condition: Some(Condition::ReadWrite),
                size: Some(size),
                callback: Some(callback),
                ..self
            }),
    {
        self.watch_memory(addr, Condition::ReadWrite, size, callback)
    }

    /// Watch a memory address for execution.
    pub fn watch_memory_execute(self, addr: u64, callback: HWBPCallback) -> (b: Self)
        ensures
            b == (HWBPBuilder {
                address: Some(addr),
                condition: Some(Condition::Execute),
                size: Some(Size::OneByte),
                callback: Some(callback),
                ..self
            }),
    {
        self.watch_memory(addr, Condition::Execute, Size::OneByte, callback)
    }

    /// Watch the object at `address` covering `size_in_bytes` bytes for
    /// a specific condition. Returns `None` — no error — when the byte
    /// count is not one of 1, 2, 4 or 8.
    pub fn watch_variable(
        self,
        address: u64,
        size_in_bytes: usize,
        condition: Condition,
        callback: HWBPCallback,
    ) -> (b: Option<Self>)
        ensures
            match b {
                Some(bb) => exists|sz: Size|
                    size_bytes(sz) == size_in_bytes && bb == (HWBPBuilder {
                        address: Some(address),
                        condition: Some(condition),
                        size: Some(sz),
                        callback: Some(callback),
                        ..self
                    }),
                None => size_in_bytes != 1 && size_in_bytes != 2 && size_in_bytes != 4
                    && size_in_bytes != 8,
            },
    {
        let size = match Size::from_bytes(size_in_bytes) {
            Some(size) => size,
            None => {
                return None;
            },
        };
        Some(self.watch_memory(address, condition, size, callback))
    }

    /// Watch the object at `address` covering `size_in_bytes` bytes for
    /// write access.
    pub fn watch_variable_write(
        self,
        address: u64,
        size_in_bytes: usize,
        callback: HWBPCallback,
    ) -> (b: Option<Self>)
        ensures
            match b {
                Some(bb) => exists|sz: Size|
                    size_bytes(sz) == size_in_bytes && bb == (HWBPBuilder {
                        address: Some(address),
                        condition: Some(Condition::Write),
                        size: Some(sz),
                        callback: Some(callback),
                        ..self
                    }),
                None => size_in_bytes != 1 && size_in_bytes != 2 && size_in_bytes != 4
                    && size_in_bytes != 8,
            },
    {
        self.watch_variable(address, size_in_bytes, Condition::Write, callback)
    }

    /// Watch the object at `address` covering `size_in_bytes` bytes for
    /// read and write access.
    pub fn watch_variable_read_write(
        self,
        address: u64,
        size_in_bytes: usize,
        callback: HWBPCallback,
    ) -> (b: Option<Self>)
        ensures
            match b {
                Some(bb) => exists|sz: Size|
                    size_bytes(sz) == size_in_bytes && bb == (HWBPBuilder {
                        address: Some(address),
                        condition: Some(Condition::ReadWrite),
                        size: Some(sz),
                        callback: Some(callback),
                        ..self
                    }),
                None => size_in_bytes != 1 && size_in_bytes != 2 && size_in_bytes != 4
                    && size_in_bytes != 8,
            },
    {
        self.watch_variable(address, size_in_bytes, Condition::ReadWrite, callback)
    }
}

impl HWBPBuilder {
    /// Sets whether the hardware breakpoint is enabled.
    pub fn set_enabled(&mut self, is_enabled: bool)
        ensures
            *final(self) == (HWBPBuilder { is_enabled, ..*old(self) }),
    {
        self.is_enabled = is_enabled;
    }

    /// Sets the address of the hardware breakpoint.
    pub fn set_address(&mut self, addr: u64)
        ensures
            *final(self) == (HWBPBuilder { address: Some(addr), ..*old(self) }),
    {
        self.address = Some(addr);
    }

    /// Sets the condition of the hardware breakpoint.
    pub fn set_condition(&mut self, condition: Condition)
        ensures
            *final(self) == (HWBPBuilder { condition: Some(condition), ..*old(self) }),
    {
        self.condition = Some(condition);
    }

    /// Sets the size of the hardware breakpoint.
    pub fn set_size(&mut self, size: Size)
        ensures
            *final(self) == (HWBPBuilder { size: Some(size), ..*old(self) }),
    {
        self.size = Some(size);
    }

    /// Sets the callback of the hardware breakpoint.
    pub fn set_callback(&mut self, callback: HWBPCallback)
        ensures
            *final(self) == (HWBPBuilder { callback: Some(callback), ..*old(self) }),
    {
        self.callback = Some(callback);
    }
}

impl HWBPBuilder {
    /// Sets whether the hardware breakpoint is enabled.
    pub fn with_enabled(self, is_enabled: bool) -> (b: Self)
        ensures
            b == (HWBPBuilder { is_enabled, ..self }),
    {
        HWBPBuilder { is_enabled, ..self }
    }

    /// Sets the address of the hardware breakpoint.
    pub fn with_address(self, addr: u64) -> (b: Self)
        ensures
            b == (HWBPBuilder { address: Some(addr), ..self }),
    {
        HWBPBuilder { address: Some(addr), ..self }
    }

    /// Sets the condition of the hardware breakpoint.
    pub fn with_condition(self, condition: Condition) -> (b: Self)
        ensures
            b == (HWBPBuilder { condition: Some(condition), ..self }),
    {
        HWBPBuilder { condition: Some(condition), ..self }
    }

    /// Sets the size of the hardware breakpoint.
    pub fn with_size(self, size: Size) -> (b: Self)
        ensures
            b == (HWBPBuilder { size: Some(size), ..self }),
    {
        HWBPBuilder { size: Some(size), ..self }
    }

    /// Sets the callback of the hardware breakpoint.
    pub fn with_callback(self, callback: HWBPCallback) -> (b: Self)
        ensures
            b == (HWBPBuilder { callback: Some(callback), ..self }),
    {
        HWBPBuilder { callback: Some(callback), ..self }
    }
}

} // verus!
