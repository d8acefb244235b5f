use vstd::prelude::*;

verus! {

/// An error code reported by the host OS for a failed call, as a plain
/// value. The shell that makes the OS calls fills it from the error the
/// OS returned.
#[derive(Copy, Clone, Debug, Eq, PartialEq, Structural)]
pub struct OsError {
    pub code: i32,
}

/// An error from reading, writing or enumerating thread contexts; each
/// variant wraps the underlying OS error.
#[derive(Copy, Clone, Debug, Eq, PartialEq, Structural)]
pub enum ContextError {
    /// Failed to open a thread.
    OpenThreadFailed(OsError),
    /// Failed to get a thread's context.
    GetContextFailed(OsError),
    /// Failed to set a thread's context.
    SetContextFailed(OsError),
    /// Failed to enumerate the threads of the current process.
    EnumeratingThreadsFailed(OsError),
}

/// A builder validation failure: a field that the terminal build
/// operation needs was never set.
#[derive(Copy, Clone, Debug, Eq, PartialEq, Structural)]
pub enum BuilderError {
    /// The address is not set.
    AddressNotSet,
    /// The condition is not set.
    ConditionNotSet,
    /// The size is not set, and the condition does not force one.
    SizeNotSet,
    /// The callback is not set.
    CallbackNotSet,
}

/// An error from enumerating the threads of the current process: either
/// the enumeration primitive itself failed, or the per-thread closure
/// returned an error, which surfaces as-is.
#[derive(Debug)]
pub enum EnumerateError<T> {
    WindowsError(OsError),
    UserError(T),
}

} // verus!
