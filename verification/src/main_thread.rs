//! Identity of the designated main thread.
//!
//! The process has one privileged thread on which certain operations must run.
//! Its identity is a single integer, set once by an explicit registration call
//! from the thread that will serve as main and read by every identity check.
//! Before any registration, an unset sentinel resolves to a fixed fallback
//! identity, so that single-threaded contexts need no explicit setup.

use vstd::prelude::*;

verus! {

/// The registered identity of the main thread.
///
/// Thread identities are nonzero integers (as the platform hands them out), so
/// zero serves as the "not yet registered" sentinel. While unset, the identity
/// resolves to the fixed fallback value `1`.
#[derive(Clone, Copy)]
pub struct MainThreadId {
    id: u64,
}

impl MainThreadId {
    /// The identity that checks compare against: the registered one, or the
    /// fallback while none is registered.
    pub closed spec fn supposed_main_spec(self) -> u64 {
        if self.id == 0 {
            1
        } else {
            self.id
        }
    }

    /// Whether a thread with identity `current` counts as the main thread.
    pub open spec fn is_main_spec(self, current: u64) -> bool {
        current == self.supposed_main_spec()
    }

    /// A fresh, unregistered identity: every check falls back to identity `1`.
    pub fn new() -> (m: MainThreadId)
        ensures
            m.supposed_main_spec() == 1u64,
    {
        MainThreadId { id: 0 }
    }

    /// The identity the main thread is supposed to have right now.
    pub fn supposed_main_id(&self) -> (r: u64)
        ensures
            r == self.supposed_main_spec(),
            r != 0,
    {
        if self.id == 0 {
            1
        } else {
            self.id
        }
    }

    /// Registers the calling thread (with identity `current`) as the main
    /// thread. Thread identities are nonzero, so the registered value never
    /// collides with the unset sentinel.
    pub fn set_current_thread_as_main(&mut self, current: u64)
        requires
            current != 0,
        ensures
            final(self).supposed_main_spec() == current,
    {
        self.id = current;
    }

    /// Whether the calling thread (with identity `current`) is the main thread.
    pub fn is_main_thread(&self, current: u64) -> (r: bool)
        ensures
            r == self.is_main_spec(current),
    {
        current == self.supposed_main_id()
    }

    /// Guards main-thread-only operations: callable only where the calling
    /// thread is known to be the main thread. A caller that cannot establish
    /// this must check `is_main_thread` first and treat a violation as fatal.
    pub fn assert_main_thread(&self, current: u64)
        requires
            self.is_main_spec(current),
    {
        let is_main = self.is_main_thread(current);
        assert(is_main);
    }
}

/// After a registration by the thread with identity `c`, the identity check
/// answers true for `c` and false for every other thread, whatever state the
/// identity was in before the registration.
pub proof fn lemma_registration_identity(m: MainThreadId, c: u64, t: u64)
    requires
        c != 0,
        m.supposed_main_spec() == c,
    ensures
        m.is_main_spec(t) <==> t == c,
{
}

} // verus!
