use vstd::prelude::*;

use std::collections::HashMap;

use crate::hwbp::HWBPCallback;
use crate::types::Index;

verus! {

broadcast use vstd::std_specs::hash::group_hash_axioms;

/// The four optional callbacks of one thread, one per slot. An install
/// replaces all four as a unit.
#[derive(Copy, Clone, Debug, Eq, PartialEq)]
pub struct HWBPCallbackList {
    pub first: Option<HWBPCallback>,
    pub second: Option<HWBPCallback>,
    pub third: Option<HWBPCallback>,
    pub fourth: Option<HWBPCallback>,
}

impl HWBPCallbackList {
    /// The entry of the list at a slot index.
    pub open spec fn spec_get(self, idx: Index) -> Option<HWBPCallback> {
        match idx {
            Index::First => self.first,
            Index::Second => self.second,
            Index::Third => self.third,
            Index::Fourth => self.fourth,
        }
    }

    /// Reads the entry of the list at a slot index.
    pub fn get(&self, idx: Index) -> (c: Option<HWBPCallback>)
        ensures
            c == self.spec_get(idx),
    {
        match idx {
            Index::First => self.first,
            Index::Second => self.second,
            Index::Third => self.third,
            Index::Fourth => self.fourth,
        }
    }

    /// A list with no callback in any slot.
    pub fn empty() -> (l: Self)
        ensures
            forall|idx: Index| l.spec_get(idx) is None,
    {
        HWBPCallbackList { first: None, second: None, third: None, fourth: None }
    }
}

/// The callback registry: a mapping from thread id to that thread's four
/// optional callbacks. The exception dispatcher reads it on the trapping
/// thread; apply operations overwrite a thread's four entries as a unit.
/// The process-wide instance, and the reader/writer lock that guards it,
/// live with the shell that owns the process-global state.
pub struct CallbackRegistry {
    map: HashMap<u32, HWBPCallbackList>,
}

impl View for CallbackRegistry {
    type V = Map<u32, HWBPCallbackList>;

    closed spec fn view(&self) -> Map<u32, HWBPCallbackList> {
        self.map@
    }
}

/// The callback registered for a thread and slot in a registry state:
/// the slot's entry of the thread's list, or `None` for a thread that
/// was never installed.
pub open spec fn spec_lookup(
    m: Map<u32, HWBPCallbackList>,
    thread_id: u32,
    idx: Index,
) -> Option<HWBPCallback> {
    if m.contains_key(thread_id) {
        m[thread_id].spec_get(idx)
    } else {
        None
    }
}

impl CallbackRegistry {
    /// A registry with no thread registered.
    pub fn new() -> (r: Self)
        ensures
            r@ == Map::<u32, HWBPCallbackList>::empty(),
    {
        CallbackRegistry { map: HashMap::new() }
    }

    /// The callback registered for a thread and slot, or `None` when the
    /// thread has no entry or its list holds none for the slot.
    pub fn get(&self, thread_id: u32, index: Index) -> (c: Option<HWBPCallback>)
        ensures
            c == spec_lookup(self@, thread_id, index),
    {
        match self.map.get(&thread_id) {
            Some(list) => list.get(index),
            None => None,
        }
    }

    /// Overwrites the four entries of a thread as a unit.
    pub fn install(&mut self, thread_id: u32, list: HWBPCallbackList)
        ensures
            final(self)@ == old(self)@.insert(thread_id, list),
    {
        self.map.insert(thread_id, list);
    }
}

/// After installing a list for a thread, a lookup for that thread at any
/// slot returns exactly the list's entry for the slot, and lookups for
/// every other thread are unchanged.
pub proof fn lemma_lookup_after_install(
    m: Map<u32, HWBPCallbackList>,
    thread_id: u32,
    list: HWBPCallbackList,
    idx: Index,
    other: u32,
)
    ensures
        spec_lookup(m.insert(thread_id, list), thread_id, idx) == list.spec_get(idx),
        other != thread_id ==> spec_lookup(m.insert(thread_id, list), other, idx) == spec_lookup(
            m,
            other,
            idx,
        ),
{
}

} // verus!
