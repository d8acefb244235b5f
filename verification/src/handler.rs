use vstd::prelude::*;

use crate::callbacks::{spec_lookup, CallbackRegistry, HWBPCallbackList};
use crate::hwbp::HWBPCallback;
use crate::types::Index;
use crate::x86::{
    dr6_clear_hit, dr6_hit, dr7_local_enabled, lemma_dr6_clear_hit_props, DR6, DR7,
};

verus! {

/// The OS exception code of a debug (single-step) exception.
pub const EXCEPTION_SINGLE_STEP: u32 = 0x8000_0004;

/// The handler return value that resumes the interrupted thread.
pub const EXCEPTION_CONTINUE_EXECUTION: i32 = -1;

/// The handler return value that passes the exception to the next
/// handler.
pub const EXCEPTION_CONTINUE_SEARCH: i32 = 0;

/// The Resume Flag, bit 16 of EFLAGS: suppresses the immediate
/// re-trigger of an execute breakpoint when execution resumes at the
/// trapped instruction.
pub const RESUME_FLAG: u32 = 0x1_0000;

/// The triggering slot of a debug exception: the lowest index whose
/// DR7 local-enable flag and DR6 hit flag are both set, or `None` when
/// no slot qualifies. Further hits in the same event are left for the
/// next exception.
pub open spec fn first_triggered(dr6: u64, dr7: u64) -> Option<Index> {
    if dr7_local_enabled(dr7, Index::First) && dr6_hit(dr6, Index::First) {
        Some(Index::First)
    } else if dr7_local_enabled(dr7, Index::Second) && dr6_hit(dr6, Index::Second) {
        Some(Index::Second)
    } else if dr7_local_enabled(dr7, Index::Third) && dr6_hit(dr6, Index::Third) {
        Some(Index::Third)
    } else if dr7_local_enabled(dr7, Index::Fourth) && dr6_hit(dr6, Index::Fourth) {
        Some(Index::Fourth)
    } else {
        None
    }
}

/// What the exception dispatcher decides for one exception: the value
/// to return to the OS, the slot it dispatched and the callback to run
/// for it, if any, and the DR6 and EFLAGS words to write back to the
/// trapped thread's context.
#[derive(Copy, Clone, Debug, Eq, PartialEq, Structural)]
pub struct DispatchOutcome {
    pub continue_code: i32,
    pub dispatched: Option<Index>,
    pub callback: Option<HWBPCallback>,
    pub dr6: u64,
    pub eflags: u32,
}

/// The outcome the dispatcher owes for an exception. A code other than
/// the debug exception is passed on with nothing touched. For a debug
/// exception the dispatcher resumes execution with the Resume Flag set;
/// when a slot triggered, the lowest such slot's hit flag is cleared —
/// and only that flag — and the thread's registered callback for that
/// slot, if any, is to be run.
pub open spec fn dispatch_spec(
    code: u32,
    dr6: u64,
    dr7: u64,
    eflags: u32,
    m: Map<u32, HWBPCallbackList>,
    thread_id: u32,
) -> DispatchOutcome {
    if code != EXCEPTION_SINGLE_STEP {
        DispatchOutcome {
            continue_code: EXCEPTION_CONTINUE_SEARCH,
            dispatched: None,
            callback: None,
            dr6,
            eflags,
        }
    } else {
        match first_triggered(dr6, dr7) {
            Some(idx) => DispatchOutcome {
                continue_code: EXCEPTION_CONTINUE_EXECUTION,
                dispatched: Some(idx),
                callback: spec_lookup(m, thread_id, idx),
                dr6: dr6_clear_hit(dr6, idx),
                eflags: eflags | RESUME_FLAG,
            },
            None => DispatchOutcome {
                continue_code: EXCEPTION_CONTINUE_EXECUTION,
                dispatched: None,
                callback: None,
                dr6,
                eflags: eflags | RESUME_FLAG,
            },
        }
    }
}

/// Decides how to dispatch one exception, given the exception code and
/// the trapped thread's DR6, DR7 and EFLAGS words. The shell that owns
/// the OS exception hook calls this on the trapping thread, runs the
/// returned callback with the thread's CPU context, writes the returned
/// DR6 and EFLAGS back, and returns the continue code to the OS.
pub fn dispatch_exception(
    code: u32,
    dr6: u64,
    dr7: u64,
    eflags: u32,
    registry: &CallbackRegistry,
    thread_id: u32,
) -> (o: DispatchOutcome)
    ensures
        o == dispatch_spec(code, dr6, dr7, eflags, registry@, thread_id),
{
    if code != EXCEPTION_SINGLE_STEP {
        return DispatchOutcome {
            continue_code: EXCEPTION_CONTINUE_SEARCH,
            dispatched: None,
            callback: None,
            dr6,
            eflags,
        };
    }
    let dr6_reg = DR6::from_bits(dr6);
    let dr7_reg = DR7::from_bits(dr7);
    let triggered: Option<Index> = if dr7_reg.bp_local(Index::First) && dr6_reg.bp_detected(
        Index::First,
    ) {
        Some(Index::First)
    } else if dr7_reg.bp_local(Index::Second) && dr6_reg.bp_detected(Index::Second) {
        Some(Index::Second)
    } else if dr7_reg.bp_local(Index::Third) && dr6_reg.bp_detected(Index::Third) {
        Some(Index::Third)
    } else if dr7_reg.bp_local(Index::Fourth) && dr6_reg.bp_detected(Index::Fourth) {
        Some(Index::Fourth)
    } else {
        None
    };
    match triggered {
        Some(idx) => {
            let callback = registry.get(thread_id, idx);
            let mut dr6_out = dr6_reg;
            dr6_out.clear_detected(idx);
            DispatchOutcome {
                continue_code: EXCEPTION_CONTINUE_EXECUTION,
                dispatched: Some(idx),
                callback,
                dr6: dr6_out.into_bits(),
                eflags: eflags | RESUME_FLAG,
            }
        },
        None => DispatchOutcome {
            continue_code: EXCEPTION_CONTINUE_EXECUTION,
            dispatched: None,
            callback: None,
            dr6,
            eflags: eflags | RESUME_FLAG,
        },
    }
}

/// The dispatcher touches the hit flags exactly as it dispatches: a
/// dispatched slot was enabled and hit and no lower slot was; its hit
/// flag — and no other DR6 bit — is cleared. When nothing is
/// dispatched, DR6 comes back untouched, and on a debug exception that
/// means no slot was both enabled and hit.
pub proof fn lemma_dispatch_clears_only_dispatched(
    code: u32,
    dr6: u64,
    dr7: u64,
    eflags: u32,
    m: Map<u32, HWBPCallbackList>,
    thread_id: u32,
)
    ensures
        ({
            let o = dispatch_spec(code, dr6, dr7, eflags, m, thread_id);
            match o.dispatched {
                Some(idx) => {
                    &&& dr7_local_enabled(dr7, idx) && dr6_hit(dr6, idx)
                    &&& forall|j: Index|
                        j.as_int() < idx.as_int() ==> !(#[trigger] dr7_local_enabled(dr7, j)
                            && dr6_hit(dr6, j))
                    &&& !dr6_hit(o.dr6, idx)
                    &&& forall|j: Index|
                        j != idx ==> #[trigger] dr6_hit(o.dr6, j) == dr6_hit(dr6, j)
                    &&& o.dr6 & 0xFFFF_FFFF_FFFF_FFF0 == dr6 & 0xFFFF_FFFF_FFFF_FFF0
                },
                None => {
                    &&& o.dr6 == dr6
                    &&& code == EXCEPTION_SINGLE_STEP ==> forall|j: Index|
                        !(#[trigger] dr7_local_enabled(dr7, j) && dr6_hit(dr6, j))
                },
            }
        }),
{
    let o = dispatch_spec(code, dr6, dr7, eflags, m, thread_id);
    match o.dispatched {
        Some(idx) => {
            lemma_dr6_clear_hit_props(dr6, idx);
            assert forall|j: Index| j.as_int() < idx.as_int() implies !(#[trigger]
            dr7_local_enabled(dr7, j) && dr6_hit(dr6, j)) by {
                match j {
                    Index::First => {},
                    Index::Second => {},
                    Index::Third => {},
                    Index::Fourth => {},
                }
            }
        },
        None => {
            if code == EXCEPTION_SINGLE_STEP {
                assert forall|j: Index| !(#[trigger] dr7_local_enabled(dr7, j) && dr6_hit(
                    dr6,
                    j,
                )) by {
                    match j {
                        Index::First => {},
                        Index::Second => {},
                        Index::Third => {},
                        Index::Fourth => {},
                    }
                }
            }
        },
    }
}

/// Whether the process-wide vectored exception handler is installed,
/// and under which OS registration token. The process-global instance
/// sits behind an exclusive lock in the shell that makes the OS calls;
/// these operations make installing and removing idempotent.
pub struct HandlerState {
    pub token: Option<usize>,
}

impl HandlerState {
    /// The state before any install: no handler registered.
    pub fn new() -> (s: Self)
        ensures
            s.token is None,
    {
        HandlerState { token: None }
    }

    /// Whether an install must register the OS handler: true only when
    /// none is registered, which makes a second install a no-op.
    pub fn needs_install(&self) -> (b: bool)
        ensures
            b == (self.token is None),
    {
        match self.token {
            None => true,
            Some(_) => false,
        }
    }

    /// Records the token the OS returned for the newly registered
    /// handler.
    pub fn record_install(&mut self, token: usize)
        requires
            old(self).token is None,
        ensures
            final(self).token == Some(token),
    {
        self.token = Some(token);
    }

    /// Takes the registration token out for removal: returns the token
    /// of the installed handler, or `None` when none is installed, and
    /// leaves the state uninstalled either way — which makes a second
    /// removal a no-op.
    pub fn take_installed(&mut self) -> (t: Option<usize>)
        ensures
            t == old(self).token,
            final(self).token is None,
    {
        let t = self.token;
        self.token = None;
        t
    }
}

} // verus!
