//! The single-slot, wake-on-write box that adapts engine callbacks to task
//! suspension.
//!
//! A waiter registers interest in a result that an engine callback will
//! deposit later. The box holds at most one pending result; the waiter is
//! woken exactly once, either when a result is deposited or when the producer
//! side is dropped without depositing one, which resolves the wait to failure
//! rather than leaving it pending. The state machine is held here; the
//! unverified shell wraps it in a future and a waker.

use vstd::prelude::*;

use crate::errors::Error;
use crate::webview::WebViewState;

verus! {

/// What one poll of a waiting task observes.
#[derive(Debug, Clone, Copy, PartialEq, Eq, Structural)]
pub enum PollOutcome<T> {
    /// Neither a result nor the producer's disappearance has been seen yet.
    Pending,
    /// The wait is over: `Some` carries the deposited result, `None` records
    /// that the producer was dropped without depositing one.
    Ready(Option<T>),
}

/// The shared state of one waiter/producer pair.
pub struct SignalSlot<T> {
    value: Option<T>,
    producer_alive: bool,
    resolved: bool,
}

impl<T> SignalSlot<T> {
    /// The result deposited and not yet taken, if any.
    pub closed spec fn pending_value(&self) -> Option<T> {
        self.value
    }

    /// Whether the producer side can still deposit a result.
    pub closed spec fn is_producer_alive(&self) -> bool {
        self.producer_alive
    }

    /// Whether a poll has already returned `Ready`; a resolved wait is never
    /// polled again.
    pub closed spec fn is_resolved(&self) -> bool {
        self.resolved
    }

    /// What the next poll of `s` observes.
    pub open spec fn poll_outcome_spec(s: Self) -> PollOutcome<T> {
        if s.pending_value() is Some {
            PollOutcome::Ready(s.pending_value())
        } else if !s.is_producer_alive() {
            PollOutcome::Ready(Option::None)
        } else {
            PollOutcome::Pending
        }
    }

    /// A fresh pair: no result yet, producer alive, nothing resolved.
    pub fn new() -> (s: Self)
        ensures
            s.pending_value() is None,
            s.is_producer_alive(),
            !s.is_resolved(),
    {
        SignalSlot { value: Option::None, producer_alive: true, resolved: false }
    }

    /// The producer deposits its one result and goes away; the waiter is
    /// woken.
    pub fn complete(&mut self, value: T)
        requires
            old(self).is_producer_alive(),
        ensures
            final(self).pending_value() == Some(value),
            !final(self).is_producer_alive(),
            final(self).is_resolved() == old(self).is_resolved(),
    {
        self.value = Some(value);
        self.producer_alive = false;
    }

    /// The producer goes away without depositing a result; the waiter is
    /// woken and will observe failure.
    pub fn abandon(&mut self)
        requires
            old(self).is_producer_alive(),
        ensures
            final(self).pending_value() == old(self).pending_value(),
            !final(self).is_producer_alive(),
            final(self).is_resolved() == old(self).is_resolved(),
    {
        self.producer_alive = false;
    }

    /// One poll by the waiting task.
    ///
    /// Observes a deposited result first; failing that, a dead producer means
    /// the wait resolves to failure; otherwise the wait stays pending (and the
    /// waker is re-registered by the unverified shell). A resolved wait is not
    /// polled again.
    pub fn poll(&mut self) -> (r: PollOutcome<T>)
        requires
            !old(self).is_resolved(),
        ensures
            r == Self::poll_outcome_spec(*old(self)),
            final(self).pending_value() is None,
            final(self).is_producer_alive() == old(self).is_producer_alive(),
            final(self).is_resolved() == (r is Ready),
    {
        let value = self.value.take();
        match value {
            Some(v) => {
                self.resolved = true;
                PollOutcome::Ready(Some(v))
            },
            None => {
                if !self.producer_alive {
                    self.resolved = true;
                    PollOutcome::Ready(Option::None)
                } else {
                    PollOutcome::Pending
                }
            },
        }
    }

    /// Whether the producer side can still deposit a result.
    pub fn is_producer_alive_check(&self) -> (r: bool)
        ensures
            r == self.is_producer_alive(),
    {
        self.producer_alive
    }

    /// Whether a poll has already resolved this wait.
    pub fn resolved(&self) -> (r: bool)
        ensures
            r == self.is_resolved(),
    {
        self.resolved
    }
}

/// Resolution happens exactly once. A deposit is possible only while the
/// producer is alive and itself ends the producer's life, so at most one
/// result is ever deposited; a poll observes `Ready` exactly when a result is
/// present or the producer is gone, so a wait whose producer disappears
/// resolves to failure instead of hanging; and every `Ready` marks the slot
/// resolved, after which it is not polled again.
pub proof fn lemma_resolves_exactly_once<T>(s: SignalSlot<T>)
    ensures
        SignalSlot::poll_outcome_spec(s) is Ready
            <==> (s.pending_value() is Some || !s.is_producer_alive()),
        s.pending_value() matches Some(v)
            ==> SignalSlot::poll_outcome_spec(s) == PollOutcome::Ready(Some(v)),
        s.pending_value() is None && !s.is_producer_alive()
            ==> SignalSlot::poll_outcome_spec(s) == PollOutcome::Ready(Option::<T>::None),
{
}

/// Resolve the runtime half of the async adaptation: the wait for the
/// context-initialized signal ended with `awaited`.
///
/// A deposited signal means the runtime is usable; a wait that resolved to
/// failure (producer dropped) means the runtime never became ready.
pub fn runtime_ready_outcome(awaited: Option<()>) -> (r: Result<(), Error>)
    ensures
        awaited is Some <==> r is Ok,
        r is Err ==> r == Result::<(), Error>::Err(Error::FailedToCreateRuntime),
{
    match awaited {
        Some(_) => Ok(()),
        None => Err(Error::FailedToCreateRuntime),
    }
}

/// Resolve the surface half of the async adaptation: the wait for the first
/// terminal load state ended with `awaited` (`Some(true)` for a successful
/// load, `Some(false)` for a load error, `None` for a dropped producer).
pub fn webview_load_outcome(awaited: Option<bool>) -> (r: Result<(), Error>)
    ensures
        r is Ok <==> awaited == Some(true),
        r is Err ==> r == Result::<(), Error>::Err(Error::FailedToCreateWebView),
{
    match awaited {
        Some(true) => Ok(()),
        _ => Err(Error::FailedToCreateWebView),
    }
}

/// Forward the context-initialized signal to a pending runtime wait: the
/// signal fires once, and only a still-alive producer can deposit it.
pub fn forward_context_initialized(slot: &mut SignalSlot<()>)
    ensures
        old(slot).is_producer_alive() ==> final(slot).pending_value() == Some(()),
        !old(slot).is_producer_alive() ==> *final(slot) == *old(slot),
        !final(slot).is_producer_alive(),
        final(slot).is_resolved() == old(slot).is_resolved(),
{
    if slot.is_producer_alive_check() {
        slot.complete(());
    }
}

/// Forward a surface state change to a pending creation wait. Only the two
/// terminal states of the initial navigation resolve the wait — a successful
/// load deposits `true`, a load error deposits `false` — and only the first
/// terminal state does so, since depositing ends the producer's life.
pub fn forward_terminal_state(slot: &mut SignalSlot<bool>, state: WebViewState)
    ensures
        old(slot).is_producer_alive() && state is Loaded
            ==> final(slot).pending_value() == Some(true),
        old(slot).is_producer_alive() && state is LoadError
            ==> final(slot).pending_value() == Some(false),
        old(slot).is_producer_alive() && (state is Loaded || state is LoadError)
            ==> !final(slot).is_producer_alive(),
        !(state is Loaded || state is LoadError) || !old(slot).is_producer_alive()
            ==> *final(slot) == *old(slot),
        final(slot).is_resolved() == old(slot).is_resolved(),
{
    match state {
        WebViewState::Loaded => {
            if slot.is_producer_alive_check() {
                slot.complete(true);
            }
        },
        WebViewState::LoadError => {
            if slot.is_producer_alive_check() {
                slot.complete(false);
            }
        },
        _ => {},
    }
}

} // verus!
