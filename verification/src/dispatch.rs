//! The dispatch loop as a state machine.
//!
//! A [`Dispatcher`] is either running or stopped. Each value that the event
//! channel yields is handed to [`Dispatcher::accept`]; while the dispatcher
//! runs, an item opens a [`Round`], which names, one call of [`Round::next`]
//! after the other, the listener to invoke next and hands out the copy of
//! the item that the listener is to receive. The caller owns the listeners
//! and the channel: it invokes (and, for an asynchronous listener, awaits)
//! what a round names before it asks for the next delivery.

use vstd::prelude::*;

verus! {

/// A registered listener: its class, and its place in the order in which
/// the listeners of that class were registered.
#[derive(Clone, Copy, Debug, PartialEq, Eq, Structural)]
pub enum Listener {
    /// Runs to completion before the loop goes on.
    Sync(usize),
    /// Is awaited before the loop goes on.
    Async(usize),
}

/// The order in which the listeners are invoked for one item: every
/// synchronous listener in registration order, then every asynchronous
/// listener in registration order.
pub open spec fn schedule(n_sync: usize, n_async: usize) -> Seq<Listener> {
    Seq::new(
        (n_sync + n_async) as nat,
        |k: int|
            if k < n_sync {
                Listener::Sync(k as usize)
            } else {
                Listener::Async((k - n_sync) as usize)
            },
    )
}

/// One invocation: the listener to call and the copy of the item that is
/// passed to it.
#[derive(Debug, PartialEq, Eq)]
pub struct Delivery<E> {
    pub listener: Listener,
    pub event: E,
}

/// The two states of the dispatch loop.
#[derive(Clone, Copy, Debug, PartialEq, Eq, Structural)]
pub enum Phase {
    /// Draining the channel.
    Running,
    /// The channel has ended or the loop was stopped; nothing is dispatched
    /// any more.
    Stopped,
}

/// What a [`Dispatcher`] is, as a mathematical value.
pub ghost struct DispatcherView {
    pub n_sync: usize,
    pub n_async: usize,
    pub phase: Phase,
}

/// What a [`Round`] is, as a mathematical value: the item, the number of
/// listeners of each class, and how many deliveries have been handed out.
pub ghost struct RoundView<E> {
    pub item: E,
    pub n_sync: usize,
    pub n_async: usize,
    pub delivered: nat,
}

impl<E> RoundView<E> {
    /// The number of deliveries that make up the whole round.
    pub open spec fn total(self) -> nat {
        (self.n_sync + self.n_async) as nat
    }

    /// Every listener has been named.
    pub open spec fn finished(self) -> bool {
        self.delivered >= self.total()
    }

    /// The listener that is named next.
    pub open spec fn upcoming(self) -> Listener
        recommends
            !self.finished(),
    {
        schedule(self.n_sync, self.n_async)[self.delivered as int]
    }

    /// The round after one more delivery.
    pub open spec fn advanced(self) -> RoundView<E> {
        RoundView { delivered: self.delivered + 1, ..self }
    }

    /// Everything that the round still delivers, in order, when it is
    /// drained to its end: pairs of a listener and the item it receives.
    pub open spec fn drained(self) -> Seq<(Listener, E)>
        decreases self.total() - self.delivered,
    {
        if self.finished() {
            Seq::empty()
        } else {
            seq![(self.upcoming(), self.item)] + self.advanced().drained()
        }
    }
}

impl DispatcherView {
    /// The round that a channel poll opens: one for an item that arrives
    /// while the dispatcher runs, none at the end of the stream and none
    /// once the dispatcher has stopped.
    pub open spec fn round_for<E>(self, popped: Option<E>) -> Option<RoundView<E>> {
        match popped {
            Some(item) if self.phase is Running => Some(
                RoundView { item, n_sync: self.n_sync, n_async: self.n_async, delivered: 0 },
            ),
            _ => None,
        }
    }

    /// The dispatcher after a channel poll: the end of the stream stops it,
    /// an item leaves it as it is.
    pub open spec fn after_poll<E>(self, popped: Option<E>) -> DispatcherView {
        if popped is None {
            self.stopped()
        } else {
            self
        }
    }

    /// The dispatcher after it was told to stop.
    pub open spec fn stopped(self) -> DispatcherView {
        DispatcherView { phase: Phase::Stopped, ..self }
    }
}

/// Everything that is delivered, in order, by a loop that hands the given
/// channel polls to a dispatcher one after the other and drains each round
/// that it is given.
pub open spec fn dispatched<E>(d: DispatcherView, polls: Seq<Option<E>>) -> Seq<(Listener, E)>
    decreases polls.len(),
{
    if polls.len() == 0 {
        Seq::empty()
    } else {
        let round = match d.round_for(polls[0]) {
            Some(r) => r.drained(),
            None => Seq::empty(),
        };
        round + dispatched(d.after_poll(polls[0]), polls.skip(1))
    }
}

/// The decisions of the dispatch loop between two channel polls.
pub struct Dispatcher {
    n_sync: usize,
    n_async: usize,
    phase: Phase,
}

impl View for Dispatcher {
    type V = DispatcherView;

    closed spec fn view(&self) -> DispatcherView {
        DispatcherView { n_sync: self.n_sync, n_async: self.n_async, phase: self.phase }
    }
}

impl Dispatcher {
    /// A running dispatcher for the given numbers of synchronous and
    /// asynchronous listeners.
    pub fn new(n_sync: usize, n_async: usize) -> (dispatcher: Dispatcher)
        ensures
            dispatcher@ == (DispatcherView { n_sync, n_async, phase: Phase::Running }),
    {
        Dispatcher { n_sync, n_async, phase: Phase::Running }
    }

    /// The state of the loop.
    pub fn phase(&self) -> (phase: Phase)
        ensures
            phase == self@.phase,
    {
        self.phase
    }

    /// Takes what the channel yielded. An item that arrives while the
    /// dispatcher runs opens a round for exactly that item. The end of the
    /// stream stops the dispatcher. Once stopped, the dispatcher stays
    /// stopped and opens no round, whatever arrives.
    pub fn accept<E>(&mut self, popped: Option<E>) -> (round: Option<Round<E>>)
        ensures
            final(self)@ == old(self)@.after_poll(popped),
            match round {
                Some(r) => old(self)@.round_for(popped) == Some(r@),
                None => old(self)@.round_for(popped) is None,
            },
    {
        match popped {
            None => {
                self.phase = Phase::Stopped;
                None
            },
            Some(item) => {
                match self.phase {
                    Phase::Stopped => None,
                    Phase::Running => Some(
                        Round {
                            item,
                            n_sync: self.n_sync,
                            n_async: self.n_async,
                            sync_done: 0,
                            async_done: 0,
                        },
                    ),
                }
            },
        }
    }

    /// Stops the dispatcher. Stopping is final.
    pub fn stop(&mut self)
        ensures
            final(self)@ == old(self)@.stopped(),
    {
        self.phase = Phase::Stopped;
    }
}

/// The delivery of one item to every listener, in the order of
/// [`schedule`].
pub struct Round<E> {
    item: E,
    n_sync: usize,
    n_async: usize,
    sync_done: usize,
    async_done: usize,
}

impl<E> View for Round<E> {
    type V = RoundView<E>;

    closed spec fn view(&self) -> RoundView<E> {
        RoundView {
            item: self.item,
            n_sync: self.n_sync,
            n_async: self.n_async,
            delivered: (self.sync_done + self.async_done) as nat,
        }
    }
}

impl<E> Round<E> {
    /// No asynchronous listener is named before the last synchronous one,
    /// and no listener beyond those that were registered.
    #[verifier::type_invariant]
    spec fn in_order(self) -> bool {
        &&& self.sync_done <= self.n_sync
        &&& self.async_done <= self.n_async
        &&& self.async_done > 0 ==> self.sync_done == self.n_sync
    }

    /// Names the next listener of the round and hands out the copy of the
    /// item that it receives, or `None` when every listener has been named.
    pub fn next(&mut self) -> (delivery: Option<Delivery<E>>) where E: Clone
        ensures
            !old(self)@.finished() ==> {
                &&& delivery matches Some(d)
                &&& d.listener == old(self)@.upcoming()
                &&& cloned(old(self)@.item, d.event)
                &&& final(self)@ == old(self)@.advanced()
            },
            old(self)@.finished() ==> delivery is None && final(self)@ == old(self)@,
    {
        proof {
            use_type_invariant(&*self);
        }
        if self.sync_done < self.n_sync {
            let place: usize = self.sync_done;
            self.sync_done = place + 1;
            Some(Delivery { listener: Listener::Sync(place), event: self.item.clone() })
        } else if self.async_done < self.n_async {
            let place: usize = self.async_done;
            self.async_done = place + 1;
            Some(Delivery { listener: Listener::Async(place), event: self.item.clone() })
        } else {
            None
        }
    }
}

} // verus!
