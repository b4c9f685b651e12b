//! Dispatching work to the main thread.
//!
//! The dispatcher holds two FIFO queues of deferred actions destined for the
//! main thread: plain fire-and-forget posts, and signalled submissions whose
//! callers block until the main thread has executed them. Any thread may
//! append; only the main-thread pump drains. The runtime around the library
//! supplies the calling thread's identity, guards the dispatcher with a lock
//! (reporting contention to the pump), executes the actions a pump hands back
//! in order, and fires each completion signal.

use vstd::prelude::*;

use crate::main_thread::MainThreadId;

verus! {

/// Relies on `anyhow::Error` as an opaque error type: `ok_main` reports
/// through a result of this type, though it never constructs an error.
#[verifier::external_type_specification]
#[verifier::external_body]
pub struct ExAnyhowError(anyhow::Error);

/// A deferred action paired with the one-shot completion signal its submitter
/// waits on. The signal is named by a token that is unique per dispatcher; the
/// runtime maps it to the waiting caller.
pub struct Signalled<A> {
    pub signal: u64,
    pub action: A,
}

/// What a call that wants main-thread execution should do next.
pub enum MainCall<A> {
    /// The caller is already on the main thread: run the action right away.
    Immediate(A),
    /// The action was queued; the submitter waits on the signal with this
    /// token until the pump has executed the action and fired the signal.
    Submitted(u64),
}

/// What one pump pass drained, for the main thread to execute: first the
/// fire-and-forget actions, then the signalled ones, each batch in FIFO order.
/// After running a signalled action the main thread fires its signal.
pub struct PumpBatch<A> {
    pub callbacks: Vec<A>,
    pub signalled: Vec<Signalled<A>>,
}

/// The queues of work bound for the main thread.
///
/// An action enters a queue exactly once and leaves it exactly once, through a
/// pump pass; insertion order is execution order.
pub struct Dispatcher<A> {
    callbacks: Vec<A>,
    signalled: Vec<Signalled<A>>,
    next_signal: u64,
}

impl<A> Dispatcher<A> {
    /// The pending fire-and-forget actions, oldest first.
    pub closed spec fn callbacks_view(self) -> Seq<A> {
        self.callbacks@
    }

    /// The pending signalled submissions, oldest first.
    pub closed spec fn signalled_view(self) -> Seq<Signalled<A>> {
        self.signalled@
    }

    /// The signal token the next signalled submission will receive.
    pub closed spec fn next_signal_spec(self) -> u64 {
        self.next_signal
    }

    /// The signal token the next signalled submission will receive. Submitters
    /// check it against the token limit before submitting.
    pub fn next_signal(&self) -> (r: u64)
        ensures
            r == self.next_signal_spec(),
    {
        self.next_signal
    }

    /// A dispatcher with nothing pending.
    pub fn new() -> (d: Dispatcher<A>)
        ensures
            d.callbacks_view() == Seq::<A>::empty(),
            d.signalled_view() == Seq::<Signalled<A>>::empty(),
            d.next_signal_spec() == 0,
    {
        Dispatcher { callbacks: Vec::new(), signalled: Vec::new(), next_signal: 0 }
    }

    /// Fire-and-forget post. On the main thread the action is handed straight
    /// back to be run now, so main-thread work never waits on itself; from any
    /// other thread it joins the tail of the queue and the call returns at
    /// once.
    pub fn on_main(&mut self, main: &MainThreadId, current: u64, action: A) -> (r: Option<A>)
        ensures
            main.is_main_spec(current) ==> r == Some(action) && *final(self) == *old(self),
            !main.is_main_spec(current) ==> r is None
                && final(self).callbacks_view() == old(self).callbacks_view().push(action)
                && final(self).signalled_view() == old(self).signalled_view()
                && final(self).next_signal_spec() == old(self).next_signal_spec(),
    {
        if main.is_main_thread(current) {
            Some(action)
        } else {
            self.callbacks.push(action);
            None
        }
    }

    /// `on_main`, reported through a result that is always a success.
    pub fn ok_main(&mut self, main: &MainThreadId, current: u64, action: A) -> (r: Result<
        Option<A>,
        anyhow::Error,
    >)
        ensures
            main.is_main_spec(current) ==> r == Ok::<Option<A>, anyhow::Error>(Some(action))
                && *final(self) == *old(self),
            !main.is_main_spec(current) ==> r == Ok::<Option<A>, anyhow::Error>(None)
                && final(self).callbacks_view() == old(self).callbacks_view().push(action)
                && final(self).signalled_view() == old(self).signalled_view()
                && final(self).next_signal_spec() == old(self).next_signal_spec(),
    {
        Ok(self.on_main(main, current, action))
    }

    /// The delayed-dispatch tail: once the externally scheduled delay has
    /// elapsed, the timer task enqueues the action exactly as an off-main post
    /// does.
    pub fn enqueue(&mut self, action: A)
        ensures
            final(self).callbacks_view() == old(self).callbacks_view().push(action),
            final(self).signalled_view() == old(self).signalled_view(),
            final(self).next_signal_spec() == old(self).next_signal_spec(),
    {
        self.callbacks.push(action);
    }

    /// Blocking submission. On the main thread the action is handed straight
    /// back to be run now. From any other thread it joins the tail of the
    /// signalled queue under a fresh signal token, and the caller then waits
    /// (polling, without parking the thread) until the pump fires that signal.
    pub fn on_main_sync(&mut self, main: &MainThreadId, current: u64, action: A) -> (r: MainCall<
        A,
    >)
        requires
            old(self).next_signal_spec() < u64::MAX,
        ensures
            main.is_main_spec(current) ==> r == MainCall::<A>::Immediate(action)
                && *final(self) == *old(self),
            !main.is_main_spec(current) ==> r == MainCall::<A>::Submitted(
                old(self).next_signal_spec(),
            )
                && final(self).signalled_view() == old(self).signalled_view().push(
                    Signalled { signal: old(self).next_signal_spec(), action },
                )
                && final(self).callbacks_view() == old(self).callbacks_view()
                && final(self).next_signal_spec() == old(self).next_signal_spec() + 1,
    {
        if main.is_main_thread(current) {
            MainCall::Immediate(action)
        } else {
            let signal = self.next_signal;
            self.next_signal = self.next_signal + 1;
            self.signalled.push(Signalled { signal, action });
            MainCall::Submitted(signal)
        }
    }

    /// The synchronous bridge's submission step. On the main thread the action
    /// is handed straight back: the caller runs it and has its value with no
    /// queueing and no pump. From any other thread the action — wrapped by the
    /// caller so that running it stores its value in a `ResultSlot` — joins
    /// the signalled queue, and the caller blocks on the returned signal; once
    /// the pump has fired it, the caller takes the value out of the slot.
    pub fn from_main(&mut self, main: &MainThreadId, current: u64, action: A) -> (r: MainCall<A>)
        requires
            old(self).next_signal_spec() < u64::MAX,
        ensures
            main.is_main_spec(current) ==> r == MainCall::<A>::Immediate(action)
                && *final(self) == *old(self),
            !main.is_main_spec(current) ==> r == MainCall::<A>::Submitted(
                old(self).next_signal_spec(),
            )
                && final(self).signalled_view() == old(self).signalled_view().push(
                    Signalled { signal: old(self).next_signal_spec(), action },
                )
                && final(self).callbacks_view() == old(self).callbacks_view()
                && final(self).next_signal_spec() == old(self).next_signal_spec() + 1,
    {
        self.on_main_sync(main, current, action)
    }

    /// Blocks a non-main caller until the main thread's next pump, by bridging
    /// a do-nothing action (supplied by the caller) through `from_main`. On
    /// the main thread the wait would be for the thread's own future pump and
    /// can never end, so such a call is ruled out: a caller that cannot show
    /// it is off the main thread must check first and treat a violation as
    /// fatal.
    pub fn wait_for_next_frame(&mut self, main: &MainThreadId, current: u64, noop: A) -> (r: u64)
        requires
            !main.is_main_spec(current),
            old(self).next_signal_spec() < u64::MAX,
        ensures
            r == old(self).next_signal_spec(),
            final(self).signalled_view() == old(self).signalled_view().push(
                Signalled { signal: r, action: noop },
            ),
            final(self).callbacks_view() == old(self).callbacks_view(),
            final(self).next_signal_spec() == old(self).next_signal_spec() + 1,
    {
        let call = self.from_main(main, current, noop);
        match call {
            MainCall::Submitted(signal) => signal,
            MainCall::Immediate(_) => vstd::pervasive::unreached(),
        }
    }

    /// The pump: a main-thread-only pass that takes a consistent snapshot of
    /// both queues and hands it back for execution, leaving the queues empty.
    /// Nothing enqueued after the snapshot runs in this pass.
    ///
    /// The runtime guards each queue with a lock the pump must not block on:
    /// `callbacks_lock` and `signalled_lock` say whether the non-blocking
    /// acquisition of each succeeded. On contention the pass skips the
    /// affected queue (and, for the first queue, the whole pass, as the
    /// signalled queue is only reached after the plain one), leaving its work
    /// for the next pump.
    pub fn invoke_dispatched(
        &mut self,
        main: &MainThreadId,
        current: u64,
        callbacks_lock: bool,
        signalled_lock: bool,
    ) -> (batch: PumpBatch<A>)
        requires
            main.is_main_spec(current),
        ensures
            final(self).next_signal_spec() == old(self).next_signal_spec(),
            !callbacks_lock ==> batch.callbacks@ == Seq::<A>::empty()
                && batch.signalled@ == Seq::<Signalled<A>>::empty()
                && *final(self) == *old(self),
            callbacks_lock ==> batch.callbacks@ == old(self).callbacks_view()
                && final(self).callbacks_view() == Seq::<A>::empty(),
            callbacks_lock && !signalled_lock ==> batch.signalled@ == Seq::<Signalled<A>>::empty()
                && final(self).signalled_view() == old(self).signalled_view(),
            callbacks_lock && signalled_lock ==> batch.signalled@ == old(self).signalled_view()
                && final(self).signalled_view() == Seq::<Signalled<A>>::empty(),
    {
        if !callbacks_lock {
            return PumpBatch { callbacks: Vec::new(), signalled: Vec::new() };
        }
        let mut callbacks: Vec<A> = Vec::new();
        core::mem::swap(&mut callbacks, &mut self.callbacks);
        if !signalled_lock {
            return PumpBatch { callbacks, signalled: Vec::new() };
        }
        let mut signalled: Vec<Signalled<A>> = Vec::new();
        core::mem::swap(&mut signalled, &mut self.signalled);
        PumpBatch { callbacks, signalled }
    }
}

/// The cell that carries a bridged call's value from the main thread, which
/// computes it, to the submitting thread, which awaits it: one writer, one
/// reader, one value.
pub struct ResultSlot<T> {
    value: Option<T>,
}

impl<T> ResultSlot<T> {
    /// The value currently held, if any.
    pub closed spec fn value_spec(self) -> Option<T> {
        self.value
    }

    /// The slot after the executing side stores `v`.
    pub closed spec fn spec_put(self, v: T) -> ResultSlot<T> {
        ResultSlot { value: Some(v) }
    }

    /// What the waiting side takes out of a filled slot, with the slot it
    /// leaves behind.
    pub closed spec fn spec_take(self) -> (ResultSlot<T>, T)
        recommends
            self.value_spec() is Some,
    {
        (ResultSlot { value: None }, self.value->Some_0)
    }

    /// Whether the executing side has stored a value yet.
    pub fn is_filled(&self) -> (r: bool)
        ensures
            r == (self.value_spec() is Some),
    {
        self.value.is_some()
    }

    /// An empty slot, allocated per bridged call.
    pub fn new() -> (s: ResultSlot<T>)
        ensures
            s.value_spec() is None,
    {
        ResultSlot { value: None }
    }

    /// Stores the value the bridged action computed. Runs on the main thread,
    /// inside the wrapped action, before the completion signal fires.
    pub fn put(&mut self, v: T)
        requires
            old(self).value_spec() is None,
        ensures
            *final(self) == old(self).spec_put(v),
            final(self).value_spec() == Some(v),
    {
        self.value = Some(v);
    }

    /// Takes the value out. Runs on the submitting thread, after the
    /// completion signal has fired; the signal firing only after a `put` is
    /// what entitles the caller to a filled slot.
    pub fn take(&mut self) -> (r: T)
        requires
            old(self).value_spec() is Some,
        ensures
            r == old(self).spec_take().1,
            *final(self) == old(self).spec_take().0,
            old(self).value_spec() == Some(r),
    {
        let taken = self.value.take();
        taken.unwrap()
    }
}

/// A value written into the slot by the executing side is exactly the value
/// the waiting side takes out: a bridged call returns the exact value its
/// wrapped action computed.
pub proof fn lemma_slot_round_trip<T>(s: ResultSlot<T>, v: T)
    requires
        s.value_spec() is None,
    ensures
        s.spec_put(v).spec_take().1 == v,
        s.spec_put(v).spec_take().0.value_spec() is None,
{
}

/// One step of a dispatch queue's history: an off-main enqueue, or an
/// uncontended main-thread pump. The same machine describes the plain queue
/// (posts) and the signalled queue (submissions, with their signals carried
/// inside the action element).
pub enum QueueOp<A> {
    Post(A),
    Pump,
}

/// How one operation transforms the queue history state: the actions still
/// pending and the actions already executed, each oldest first.
pub open spec fn queue_step<A>(state: (Seq<A>, Seq<A>), op: QueueOp<A>) -> (Seq<A>, Seq<A>) {
    match op {
        QueueOp::Post(a) => (state.0.push(a), state.1),
        QueueOp::Pump => (Seq::<A>::empty(), state.1 + state.0),
    }
}

/// The queue history state after a sequence of operations, starting empty.
pub open spec fn queue_run<A>(ops: Seq<QueueOp<A>>) -> (Seq<A>, Seq<A>)
    decreases ops.len(),
{
    if ops.len() == 0 {
        (Seq::<A>::empty(), Seq::<A>::empty())
    } else {
        queue_step(queue_run(ops.drop_last()), ops.last())
    }
}

/// The actions a sequence of operations posts, in posting order.
pub open spec fn posted<A>(ops: Seq<QueueOp<A>>) -> Seq<A>
    decreases ops.len(),
{
    if ops.len() == 0 {
        Seq::<A>::empty()
    } else {
        match ops.last() {
            QueueOp::Post(a) => posted(ops.drop_last()).push(a),
            QueueOp::Pump => posted(ops.drop_last()),
        }
    }
}

/// Under any interleaving of posts and pumps, every posted action is accounted
/// for exactly once and in posting order: the actions already executed,
/// followed by the actions still pending, are exactly the posted actions.
pub proof fn lemma_posts_preserved<A>(ops: Seq<QueueOp<A>>)
    ensures
        queue_run(ops).1 + queue_run(ops).0 == posted(ops),
    decreases ops.len(),
{
    if ops.len() == 0 {
        assert(queue_run(ops).1 + queue_run(ops).0 =~= posted(ops));
    } else {
        lemma_posts_preserved(ops.drop_last());
        assert(queue_run(ops).1 + queue_run(ops).0 =~= posted(ops));
    }
}

/// Executed work is never undone: whatever operations follow, the executed
/// history still begins with everything executed up to any earlier point.
/// Together with `lemma_pump_flushes_all_posts` this says that an action
/// posted before a pump stays executed, at its place in posting order, from
/// that pump on.
pub proof fn lemma_executed_monotone<A>(ops: Seq<QueueOp<A>>, n: int)
    requires
        0 <= n <= ops.len(),
    ensures
        queue_run(ops.take(n)).1.is_prefix_of(queue_run(ops).1),
    decreases ops.len() - n,
{
    if n == ops.len() {
        assert(ops.take(n) =~= ops);
    } else {
        lemma_executed_monotone(ops.drop_last(), n);
        assert(ops.drop_last().take(n) =~= ops.take(n));
        let prev = queue_run(ops.drop_last());
        let done = queue_run(ops.take(n)).1;
        match ops.last() {
            QueueOp::Post(a) => {
                assert(queue_run(ops).1 == prev.1);
            },
            QueueOp::Pump => {
                assert(queue_run(ops).1 == prev.1 + prev.0);
                assert((prev.1 + prev.0).subrange(0, done.len() as int) =~= prev.1.subrange(
                    0,
                    done.len() as int,
                ));
            },
        }
    }
}

/// An action posted before a pump executes no later than that pump: right
/// after any pump, nothing is pending and the executed actions are exactly
/// the ones posted so far, in posting order.
pub proof fn lemma_pump_flushes_all_posts<A>(ops: Seq<QueueOp<A>>)
    requires
        ops.len() > 0,
        ops.last() is Pump,
    ensures
        queue_run(ops).0 == Seq::<A>::empty(),
        queue_run(ops).1 == posted(ops),
{
    lemma_posts_preserved(ops);
    assert(queue_run(ops).1 =~= queue_run(ops).1 + queue_run(ops).0);
}

} // verus!
