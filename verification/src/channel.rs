//! The channel cores the device tasks share: a single-value state
//! broadcast, a capacity-one action queue, and a shutdown latch.
//!
//! These hold the value-and-generation logic; the locking and waking
//! around them belong to the runtime that embeds them. The broadcast is
//! not a queue: readers may miss intermediate values, and only the
//! latest one is retained.

use vstd::prelude::*;
use crate::device::Action;
use crate::device::State;

verus! {

/// The single-value broadcast of a device's observed state. Publishing
/// overwrites the latest value and bumps a generation counter; readers
/// compare generations to see whether something new arrived.
pub struct StateChannel {
    latest: State,
    generation: u64,
    history: Ghost<Seq<State>>,
}

impl StateChannel {
    /// Every value this channel has held, oldest first.
    pub closed spec fn history(&self) -> Seq<State> {
        self.history@
    }

    /// The value the channel currently retains.
    pub closed spec fn latest_spec(&self) -> State {
        self.latest
    }

    /// How many times the channel has been published to.
    pub closed spec fn generation_spec(&self) -> u64 {
        self.generation
    }

    /// The channel's invariant: the history begins `Unknown`, ends with
    /// the retained value, counts one entry per generation, and holds
    /// no `Unknown` after the first entry.
    pub closed spec fn wf(&self) -> bool {
        &&& self.history@.len() == self.generation + 1
        &&& self.history@[0] is Unknown
        &&& self.history@.last() == self.latest
        &&& forall|i: int| 1 <= i < self.history@.len() ==> !(#[trigger] self.history@[i] is Unknown)
    }

    /// A fresh channel: nothing observed yet.
    pub fn new() -> (r: StateChannel)
        ensures
            r.wf(),
            r.latest_spec() is Unknown,
            r.generation_spec() == 0,
            r.history() =~= seq![State::Unknown],
    {
        let ghost h: Seq<State> = seq![State::Unknown];
        StateChannel { latest: State::Unknown, generation: 0, history: Ghost(h) }
    }

    /// Publishes an observation: overwrites the latest value and bumps
    /// the generation. Only real observations are published — the
    /// poller can never unlearn one — so `Unknown` is refused here.
    pub fn publish(&mut self, s: State)
        requires
            old(self).wf(),
            !(s is Unknown),
            old(self).generation_spec() < u64::MAX,
        ensures
            final(self).wf(),
            final(self).history() == old(self).history().push(s),
            final(self).latest_spec() == s,
            final(self).generation_spec() == old(self).generation_spec() + 1,
    {
        self.latest = s;
        self.generation = self.generation + 1;
        proof {
            self.history@ = self.history@.push(self.latest);
        }
    }

    /// Reads the latest value without waiting.
    pub fn snapshot(&self) -> (s: State)
        ensures
            s == self.latest_spec(),
    {
        self.latest.clone()
    }

    /// The current generation, for a reader to remember.
    pub fn generation(&self) -> (g: u64)
        ensures
            g == self.generation_spec(),
    {
        self.generation
    }

    /// Whether anything was published since a reader last looked.
    pub fn has_newer(&self, seen: u64) -> (r: bool)
        ensures
            r == (self.generation_spec() > seen),
    {
        self.generation > seen
    }

    /// Law: the channel never yields `Unknown` after any real
    /// observation — once known, the state stays known.
    pub proof fn lemma_once_known_stays_known(&self)
        requires
            self.wf(),
        ensures
            forall|i: int, j: int|
                0 <= i <= j < self.history().len() && !(#[trigger] self.history()[i] is Unknown)
                    ==> !(#[trigger] self.history()[j] is Unknown),
    {
    }
}

/// Why a submission was refused.
#[derive(Clone, Copy, Debug, PartialEq, Eq, Structural)]
pub enum SubmitError {
    /// The queue already holds a command that the handler has not yet
    /// taken.
    Busy,
    /// All handles are gone; the device is shutting down.
    Closed,
}

/// The bounded action queue of a device: capacity one, submissions
/// refused while the slot is taken.
pub struct ActionSlot {
    pending: Option<Action>,
    closed: bool,
}

impl ActionSlot {
    /// The command waiting to be taken, if any.
    pub closed spec fn pending_spec(&self) -> Option<Action> {
        self.pending
    }

    /// Whether the queue was closed by the last handle going away.
    pub closed spec fn closed_spec(&self) -> bool {
        self.closed
    }

    /// What submitting does: refused when closed, refused busy when the
    /// slot is taken, stored otherwise.
    pub closed spec fn try_send_spec(s: ActionSlot, a: Action) -> (ActionSlot, Result<
        (),
        SubmitError,
    >) {
        if s.closed {
            (s, Err(SubmitError::Closed))
        } else if s.pending is Some {
            (s, Err(SubmitError::Busy))
        } else {
            (ActionSlot { pending: Some(a), closed: false }, Ok(()))
        }
    }

    /// A fresh, open, empty queue.
    pub fn new() -> (r: ActionSlot)
        ensures
            r.pending_spec() is None,
            !r.closed_spec(),
    {
        ActionSlot { pending: None, closed: false }
    }

    /// Submits a command without waiting. Fails fast with `Busy` while
    /// the slot is occupied and with `Closed` once the queue is closed;
    /// in both cases the queue is left exactly as it was.
    pub fn try_send(&mut self, a: Action) -> (r: Result<(), SubmitError>)
        ensures
            (*final(self), r) == ActionSlot::try_send_spec(*old(self), a),
            old(self).closed_spec() ==> r == Err::<(), SubmitError>(SubmitError::Closed)
                && *final(self) == *old(self),
            !old(self).closed_spec() && old(self).pending_spec() is Some ==> r
                == Err::<(), SubmitError>(SubmitError::Busy) && *final(self) == *old(self),
            !old(self).closed_spec() && old(self).pending_spec() is None ==> r
                == Ok::<(), SubmitError>(()) && final(self).pending_spec() == Some(a)
                && !final(self).closed_spec(),
    {
        if self.closed {
            Err(SubmitError::Closed)
        } else if self.pending.is_some() {
            Err(SubmitError::Busy)
        } else {
            self.pending = Some(a);
            Ok(())
        }
    }

    /// Takes the waiting command, freeing the slot.
    pub fn take(&mut self) -> (r: Option<Action>)
        ensures
            r == old(self).pending_spec(),
            final(self).pending_spec() is None,
            final(self).closed_spec() == old(self).closed_spec(),
    {
        self.pending.take()
    }

    /// Closes the queue: no further submission will be accepted.
    pub fn close(&mut self)
        ensures
            final(self).closed_spec(),
            final(self).pending_spec() == old(self).pending_spec(),
    {
        self.closed = true;
    }

    /// Whether a consumer has something to do: a waiting command, or a
    /// closure to notice.
    pub fn has_work(&self) -> (r: bool)
        ensures
            r == (self.pending_spec() is Some || self.closed_spec()),
    {
        self.pending.is_some() || self.closed
    }

    /// Whether the queue was closed.
    pub fn is_closed(&self) -> (r: bool)
        ensures
            r == self.closed_spec(),
    {
        self.closed
    }

    /// Law: with the slot just filled, a second submission before any
    /// take is refused busy, and changes nothing.
    pub proof fn lemma_second_send_busy(s: ActionSlot, a1: Action, a2: Action)
        requires
            !s.closed_spec(),
            s.pending_spec() is None,
        ensures
            ({
                let (s1, r1) = ActionSlot::try_send_spec(s, a1);
                let (s2, r2) = ActionSlot::try_send_spec(s1, a2);
                r1 == Ok::<(), SubmitError>(()) && r2 == Err::<(), SubmitError>(SubmitError::Busy)
                    && s2 == s1
            }),
    {
    }
}

/// The handler side of a device: the queue it consumes and the single
/// action it may be carrying out.
pub struct DeviceCore {
    queue: ActionSlot,
    in_flight: Option<Action>,
}

impl DeviceCore {
    /// The device's action queue.
    pub closed spec fn queue_spec(&self) -> ActionSlot {
        self.queue
    }

    /// The action being handled right now, if any.
    pub closed spec fn in_flight_spec(&self) -> Option<Action> {
        self.in_flight
    }

    /// How many actions are being handled: zero or one, never more.
    pub open spec fn in_flight_count(&self) -> nat {
        if self.in_flight_spec() is Some {
            1
        } else {
            0
        }
    }

    /// A fresh device core: empty queue, nothing in flight.
    pub fn new() -> (r: DeviceCore)
        ensures
            r.queue_spec().pending_spec() is None,
            !r.queue_spec().closed_spec(),
            r.in_flight_spec() is None,
    {
        DeviceCore { queue: ActionSlot::new(), in_flight: None }
    }

    /// Submits a command; fails fast while the slot is occupied.
    pub fn submit(&mut self, a: Action) -> (r: Result<(), SubmitError>)
        ensures
            (final(self).queue_spec(), r) == ActionSlot::try_send_spec(old(self).queue_spec(), a),
            final(self).in_flight_spec() == old(self).in_flight_spec(),
    {
        self.queue.try_send(a)
    }

    /// The handler picks up the next command. It may only do so once
    /// the previous action is finished: actions are strictly serial.
    pub fn begin(&mut self) -> (r: Option<Action>)
        requires
            old(self).in_flight_spec() is None,
        ensures
            r == old(self).queue_spec().pending_spec(),
            final(self).in_flight_spec() == r,
            final(self).queue_spec().pending_spec() is None,
            final(self).queue_spec().closed_spec() == old(self).queue_spec().closed_spec(),
    {
        let taken = self.queue.take();
        match taken {
            Some(a) => {
                self.in_flight = Some(a);
                let r = match &self.in_flight {
                    Some(held) => Some(held.clone()),
                    None => None,
                };
                r
            },
            None => None,
        }
    }

    /// The handler finishes the action it was carrying out, however it
    /// ended; the device returns to idle.
    pub fn finish(&mut self)
        requires
            old(self).in_flight_spec() is Some,
        ensures
            final(self).in_flight_spec() is None,
            final(self).queue_spec() == old(self).queue_spec(),
    {
        let _ = self.in_flight.take();
    }

    /// Whether the handler is between actions.
    pub fn idle(&self) -> (r: bool)
        ensures
            r == (self.in_flight_spec() is None),
    {
        self.in_flight.is_none()
    }

    /// Whether the queue was closed: the device is shutting down.
    pub fn is_closed(&self) -> (r: bool)
        ensures
            r == self.queue_spec().closed_spec(),
    {
        self.queue.is_closed()
    }

    /// Closes the queue: the signal for both tasks to wind down.
    pub fn close(&mut self)
        ensures
            final(self).queue_spec().closed_spec(),
            final(self).queue_spec().pending_spec() == old(self).queue_spec().pending_spec(),
            final(self).in_flight_spec() == old(self).in_flight_spec(),
    {
        self.queue.close();
    }

    /// Law: at most one action is ever in flight for a device.
    pub proof fn lemma_at_most_one_in_flight(&self)
        ensures
            self.in_flight_count() <= 1,
    {
    }
}

/// A latch that remembers a shutdown signal: once set, it stays set.
pub struct Shutdown {
    shutdown: bool,
}

impl Shutdown {
    /// Whether shutdown has been signalled.
    pub closed spec fn shutdown_spec(&self) -> bool {
        self.shutdown
    }

    /// A latch that has not seen a signal yet.
    pub fn new() -> (r: Shutdown)
        ensures
            !r.shutdown_spec(),
    {
        Shutdown { shutdown: false }
    }

    /// Whether the latch is set, without consuming anything.
    pub fn is_shutdown(&self) -> (r: bool)
        ensures
            r == self.shutdown_spec(),
    {
        self.shutdown
    }

    /// Feeds the latch what the signal channel delivered: a value, or
    /// nothing because the sender is gone — which also means shutdown.
    /// Returns whether the holder should shut down. Once set, the latch
    /// never resets.
    pub fn update(&mut self, received: Option<bool>) -> (r: bool)
        ensures
            r == final(self).shutdown_spec(),
            final(self).shutdown_spec() == (old(self).shutdown_spec() || received != Some(false)),
            old(self).shutdown_spec() ==> final(self).shutdown_spec(),
    {
        if self.shutdown {
            return true;
        }
        match received {
            Some(v) => {
                self.shutdown = v;
                v
            },
            None => {
                self.shutdown = true;
                true
            },
        }
    }
}

} // verus!
