//! What the dispatch state machine guarantees about the order and the
//! number of deliveries.

use crate::dispatch::{dispatched, schedule, DispatcherView, Listener, RoundView};
use vstd::arithmetic::div_mod::{
    lemma_basic_div,
    lemma_div_minus_one,
    lemma_mod_sub_multiples_vanish,
    lemma_small_mod,
};
use vstd::prelude::*;

verus! {

/// Within one item, a synchronous listener is never invoked after an
/// asynchronous one, and the listeners of one class are invoked in the
/// order in which they were registered.
pub proof fn lemma_sync_before_async_in_registration_order(
    n_sync: usize,
    n_async: usize,
    earlier: int,
    later: int,
)
    requires
        0 <= earlier < later < n_sync + n_async,
    ensures
        schedule(n_sync, n_async)[later] is Sync ==> schedule(n_sync, n_async)[earlier] is Sync,
        schedule(n_sync, n_async)[earlier] is Async ==> schedule(n_sync, n_async)[later] is Async,
        match (schedule(n_sync, n_async)[earlier], schedule(n_sync, n_async)[later]) {
            (Listener::Sync(a), Listener::Sync(b)) => a < b,
            (Listener::Async(a), Listener::Async(b)) => a < b,
            _ => true,
        },
{
}

/// Within one item, every registered listener is invoked exactly once:
/// each has one place in the schedule, and each place names a registered
/// listener.
pub proof fn lemma_every_listener_once(n_sync: usize, n_async: usize)
    ensures
        schedule(n_sync, n_async).len() == n_sync + n_async,
        forall|k: int|
            0 <= k < n_sync ==> #[trigger] schedule(n_sync, n_async)[k] == Listener::Sync(
                k as usize,
            ),
        forall|k: int|
            n_sync <= k < n_sync + n_async ==> #[trigger] schedule(n_sync, n_async)[k]
                == Listener::Async((k - n_sync) as usize),
        schedule(n_sync, n_async).no_duplicates(),
{
}

/// A round that is drained to its end delivers its own item, and no other,
/// to the listeners that are still due, in the order of the schedule.
pub proof fn lemma_round_follows_schedule<E>(round: RoundView<E>)
    requires
        round.delivered <= round.total(),
    ensures
        round.drained().len() == round.total() - round.delivered,
        forall|i: int|
            0 <= i < round.drained().len() ==> #[trigger] round.drained()[i] == (
                schedule(round.n_sync, round.n_async)[round.delivered + i],
                round.item,
            ),
    decreases round.total() - round.delivered,
{
    if !round.finished() {
        lemma_round_follows_schedule(round.advanced());
    }
}

/// The channel polls of a stream that yields the given items and has not
/// ended.
pub open spec fn arrivals<E>(items: Seq<E>) -> Seq<Option<E>> {
    items.map_values(|e: E| Some(e))
}

/// A running dispatcher that is handed `items` in their order of arrival
/// dispatches every one of them, in that order, to every listener in the
/// order of the schedule: the deliveries are as many as items times
/// listeners, and the delivery at each place goes to the listener and
/// carries the item that the place stands for. The dispatcher is still
/// running afterwards.
pub proof fn lemma_every_item_reaches_every_listener<E>(d: DispatcherView, items: Seq<E>)
    requires
        d.phase is Running,
    ensures
        ({
            let log = dispatched(d, arrivals(items));
            let per_item = d.n_sync + d.n_async;
            &&& log.len() == items.len() * per_item
            &&& forall|p: int|
                0 <= p < log.len() ==> #[trigger] log[p] == (
                    schedule(d.n_sync, d.n_async)[p % per_item],
                    items[p / per_item],
                )
        }),
        dispatcher_after(d, arrivals(items)) == d,
    decreases items.len(),
{
    let polls = arrivals(items);
    let per_item = d.n_sync + d.n_async;
    let log = dispatched(d, polls);
    if items.len() == 0 {
        assert(items.len() * per_item == 0) by (nonlinear_arith)
            requires
                items.len() == 0,
        ;
    } else {
        let rest = items.skip(1);
        let round = d.round_for(polls[0])->Some_0;
        assert(polls.skip(1) =~= arrivals(rest));
        lemma_round_follows_schedule(round);
        lemma_every_item_reaches_every_listener(d, rest);
        assert(items.len() * per_item == per_item + rest.len() * per_item) by (nonlinear_arith)
            requires
                rest.len() == items.len() - 1,
        ;
        assert forall|p: int| 0 <= p < log.len() implies #[trigger] log[p] == (
            schedule(d.n_sync, d.n_async)[p % per_item],
            items[p / per_item],
        ) by {
            assert(per_item > 0) by (nonlinear_arith)
                requires
                    0 <= p < items.len() * per_item,
                    0 <= per_item,
            ;
            if p < per_item {
                lemma_small_mod(p as nat, per_item as nat);
                lemma_basic_div(p, per_item);
            } else {
                let q = p - per_item;
                lemma_mod_sub_multiples_vanish(p, per_item);
                lemma_div_minus_one(p, per_item);
                assert(0 <= q / per_item < rest.len()) by (nonlinear_arith)
                    requires
                        0 <= q < rest.len() * per_item,
                        0 < per_item,
                ;
            }
        }
    }
}

/// The dispatcher after it was handed the given channel polls one after
/// the other.
pub open spec fn dispatcher_after<E>(d: DispatcherView, polls: Seq<Option<E>>) -> DispatcherView
    decreases polls.len(),
{
    if polls.len() == 0 {
        d
    } else {
        dispatcher_after(d.after_poll(polls[0]), polls.skip(1))
    }
}

/// Once the dispatcher has stopped, nothing is dispatched any more and the
/// dispatcher stays as it is, whatever the channel still yields. This holds
/// from the moment of the stop, wherever the loop stood.
pub proof fn lemma_nothing_dispatched_once_stopped<E>(d: DispatcherView, polls: Seq<Option<E>>)
    requires
        d.phase is Stopped,
    ensures
        dispatched(d, polls) == Seq::<(Listener, E)>::empty(),
        dispatcher_after(d, polls) == d,
    decreases polls.len(),
{
    if polls.len() > 0 {
        lemma_nothing_dispatched_once_stopped(d.after_poll(polls[0]), polls.skip(1));
    }
}

/// Nothing that arrives after the end of the stream is dispatched.
pub proof fn lemma_nothing_dispatched_after_end_of_stream<E>(
    d: DispatcherView,
    before: Seq<Option<E>>,
    after: Seq<Option<E>>,
)
    ensures
        dispatched(d, before.push(None) + after) == dispatched(d, before),
    decreases before.len(),
{
    let polls = before.push(None) + after;
    if before.len() == 0 {
        assert(polls.skip(1) =~= after);
        lemma_nothing_dispatched_once_stopped(d.after_poll(polls[0]), after);
    } else {
        assert(polls.skip(1) =~= before.skip(1).push(None) + after);
        lemma_nothing_dispatched_after_end_of_stream(
            d.after_poll(before[0]),
            before.skip(1),
            after,
        );
    }
}

} // verus!
