//! User-mode management of x86/x86-64 hardware breakpoints.
//!
//! The four debug-address registers (DR0..DR3) of a thread each hold an
//! address whose access (execute / write / read-write) raises a debug
//! exception, governed by the DR6 (status) and DR7 (control) registers.
//! This crate holds the verified core of a breakpoint manager: the
//! bit-exact DR6/DR7 codec, the per-thread slot model and its builder,
//! the thread-indexed callback registry, and the dispatch decision taken
//! inside an exception handler. The thin shell that talks to the host
//! OS (reading and writing thread contexts, enumerating threads,
//! installing a vectored exception handler) lives outside this crate and
//! hands these functions plain register values.

mod callbacks;
mod context;
mod error;
mod handler;
mod hwbp;
mod hwbp_builder;
mod hwbp_slot;
mod types;
mod x86;

pub use callbacks::lemma_lookup_after_install;
pub use callbacks::spec_lookup;
pub use callbacks::CallbackRegistry;
pub use callbacks::HWBPCallbackList;
pub use context::clear_thread;
pub use context::lemma_apply_decodes;
pub use context::lemma_apply_roundtrip;
pub use context::lemma_first_unused;
pub use context::lemma_lookup_after_apply;
pub use context::snapshot_spec;
pub use context::Context;
pub use context::DebugRegisters;
pub use error::BuilderError;
pub use error::ContextError;
pub use error::EnumerateError;
pub use error::OsError;
pub use handler::dispatch_exception;
pub use handler::dispatch_spec;
pub use handler::first_triggered;
pub use handler::lemma_dispatch_clears_only_dispatched;
pub use handler::DispatchOutcome;
pub use handler::HandlerState;
pub use handler::EXCEPTION_CONTINUE_EXECUTION;
pub use handler::EXCEPTION_CONTINUE_SEARCH;
pub use handler::EXCEPTION_SINGLE_STEP;
pub use handler::RESUME_FLAG;
pub use hwbp_builder::HWBPBuilder;
pub use hwbp::HWBPCallback;
pub use hwbp::HWBP;
pub use hwbp_slot::decode_slot_spec;
pub use hwbp_slot::encode_slot_spec;
pub use hwbp_slot::lemma_encode_slot_frame;
pub use hwbp_slot::lemma_slot_roundtrip;
pub use hwbp_slot::HWBPSlot;
pub use types::condition_bits;
pub use types::condition_of_bits;
pub use types::lemma_field_bits_roundtrip;
pub use types::size_bits;
pub use types::size_bytes;
pub use types::size_of_bits;
pub use types::Condition;
pub use types::Index;
pub use types::Size;
pub use x86::dr6_clear_hit;
pub use x86::dr6_hit;
pub use x86::dr7_condition_bits;
pub use x86::dr7_encode_slot;
pub use x86::dr7_keep_mask;
pub use x86::dr7_length_bits;
pub use x86::dr7_local_enabled;
pub use x86::dr7_slot_group_eq;
pub use x86::lemma_dr6_clear_hit_props;
pub use x86::lemma_dr7_encode_slot_props;
pub use x86::DR6;
pub use x86::DR7;
