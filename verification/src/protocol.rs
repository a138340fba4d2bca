//! A model of one exchange between a worker and the consumer that polls its
//! handle, and what holds of every interleaving of the two.
//!
//! A step of the model is one operation of the slot or one stretch of code
//! under the lock. A poll that finds the slot empty holds the lock from its
//! look until it has parked its wake-handle; the worker's send needs no lock
//! and may fall in between, its claim of the parked handle needs the lock and
//! may not. The slot behaves as a single-use cell: empty until the one send,
//! full until the one look that drains it, closed after. A wake-handle and its
//! clones wake the same task, so the model does not tell them apart.

use crate::outcome::{poll_result, Failure};
use crate::slot::Reception;
use std::task::Poll;
use vstd::prelude::*;

verus! {

/// The completion slot between the two sides.
pub enum Slot<T> {
    /// Nothing was sent yet.
    Empty,
    /// The value was sent and nobody has taken it.
    Full(T),
    /// The value was sent and taken.
    Drained,
    /// The producer went away without sending.
    Closed,
}

impl<T> Slot<T> {
    /// What a non-blocking look finds in the slot.
    pub open spec fn look(self) -> Reception<T> {
        match self {
            Slot::Empty => Reception::Empty,
            Slot::Full(value) => Reception::Ready(value),
            Slot::Drained => Reception::Closed,
            Slot::Closed => Reception::Closed,
        }
    }

    /// The slot after a look: a full slot is drained, any other is unchanged.
    pub open spec fn looked(self) -> Slot<T> {
        match self {
            Slot::Full(_) => Slot::Drained,
            other => other,
        }
    }
}

/// How far the worker has come.
pub enum Worker {
    /// The closure has not returned yet.
    Running,
    /// The value is in the slot; the notification is still to come.
    Sent,
    /// The worker has taken the parked wake-handle and not yet invoked it.
    Claimed,
    /// The worker has invoked the wake-handle that it took, if there was one.
    Notified,
    /// The closure ended without a value, so nothing was sent or notified.
    Lost,
}

/// One step of either side.
pub enum Event<T, W> {
    /// The consumer begins a poll with this wake-handle: it takes the lock and
    /// looks into the slot. Unless the slot is empty, this ends the poll.
    Look(W),
    /// The consumer ends a poll that found the slot empty: it parks its
    /// wake-handle and lets go of the lock.
    Park,
    /// The worker sends the closure's value.
    Send(T),
    /// The worker takes the parked wake-handle under the lock.
    Claim,
    /// The worker invokes the wake-handle that it took.
    Wake,
    /// The worker ends without a value.
    Abandon,
}

/// The state of one exchange. The last four fields record its history.
pub struct Exchange<T, W> {
    /// The completion slot.
    pub slot: Slot<T>,
    /// The wake-handle in the shared state.
    pub parked: Option<W>,
    /// How far the worker has come.
    pub worker: Worker,
    /// The wake-handle of a poll that found the slot empty and still holds
    /// the lock.
    pub looking: Option<W>,
    /// The wake-handle that the worker took and has yet to invoke.
    pub claimed: Option<W>,
    /// Whether a poll has returned `Ready`.
    pub finished: bool,
    /// The value that the worker sent.
    pub sent: Option<T>,
    /// The wake-handle of the latest poll that ended, if it returned `Pending`.
    pub waiting: Option<W>,
    /// The wake-handles that the worker invoked, in order.
    pub woken: Seq<W>,
    /// The values that polls handed to the consumer, in order.
    pub yielded: Seq<T>,
}

/// The exchange as `spawn` leaves it: nothing sent, nothing parked.
pub open spec fn start<T, W>() -> Exchange<T, W> {
    Exchange {
        slot: Slot::Empty,
        parked: None,
        worker: Worker::Running,
        looking: None,
        claimed: None,
        finished: false,
        sent: None,
        waiting: None,
        woken: Seq::empty(),
        yielded: Seq::empty(),
    }
}

/// What a poll returns whose look falls into the state `x`.
pub open spec fn answer<T, W>(x: Exchange<T, W>) -> Poll<Result<T, Failure>> {
    if x.finished {
        Poll::Ready(Err(Failure::Exhausted))
    } else {
        poll_result(x.slot.look())
    }
}

/// The state after the look of a poll with the wake-handle `handle`.
pub open spec fn looked<T, W>(x: Exchange<T, W>, handle: W) -> Exchange<T, W> {
    if x.finished {
        x
    } else {
        match x.slot.look() {
            Reception::Empty => Exchange { looking: Some(handle), ..x },
            Reception::Ready(value) => Exchange {
                slot: x.slot.looked(),
                finished: true,
                waiting: None,
                yielded: x.yielded.push(value),
                ..x
            },
            Reception::Closed => Exchange { finished: true, waiting: None, ..x },
        }
    }
}

/// The state after the poll that holds the lock has parked its wake-handle.
pub open spec fn parked<T, W>(x: Exchange<T, W>) -> Exchange<T, W> {
    match x.looking {
        Some(handle) => Exchange {
            parked: Some(handle),
            waiting: Some(handle),
            looking: None,
            ..x
        },
        None => x,
    }
}

/// The state after a whole poll with the wake-handle `handle` that no step of
/// the worker interrupts.
pub open spec fn polled<T, W>(x: Exchange<T, W>, handle: W) -> Exchange<T, W> {
    parked(looked(x, handle))
}

/// The state after the worker has taken the parked wake-handle.
pub open spec fn claimed<T, W>(x: Exchange<T, W>) -> Exchange<T, W> {
    Exchange { parked: None, claimed: x.parked, worker: Worker::Claimed, ..x }
}

/// The state after the worker has invoked the wake-handle that it took.
pub open spec fn woken<T, W>(x: Exchange<T, W>) -> Exchange<T, W> {
    Exchange {
        claimed: None,
        worker: Worker::Notified,
        woken: match x.claimed {
            Some(handle) => x.woken.push(handle),
            None => x.woken,
        },
        ..x
    }
}

/// Whether `event` can happen in `x`. The one consumer begins a poll when its
/// last one has ended. The worker sends or gives up once, while it runs. It
/// claims once, after it has sent, and only while no poll holds the lock, and
/// then it wakes once.
pub open spec fn enabled<T, W>(x: Exchange<T, W>, event: Event<T, W>) -> bool {
    match event {
        Event::Look(_) => x.looking is None,
        Event::Park => x.looking is Some,
        Event::Send(_) => x.worker is Running,
        Event::Claim => x.worker is Sent && x.looking is None,
        Event::Wake => x.worker is Claimed,
        Event::Abandon => x.worker is Running,
    }
}

/// The state after `event`.
pub open spec fn step<T, W>(x: Exchange<T, W>, event: Event<T, W>) -> Exchange<T, W> {
    match event {
        Event::Look(handle) => looked(x, handle),
        Event::Park => parked(x),
        Event::Send(value) => Exchange {
            slot: Slot::Full(value),
            worker: Worker::Sent,
            sent: Some(value),
            ..x
        },
        Event::Claim => claimed(x),
        Event::Wake => woken(x),
        Event::Abandon => Exchange { slot: Slot::Closed, worker: Worker::Lost, ..x },
    }
}

/// The state after the events of `events`, in order, from `x`.
pub open spec fn run<T, W>(x: Exchange<T, W>, events: Seq<Event<T, W>>) -> Exchange<T, W>
    decreases events.len(),
{
    if events.len() == 0 {
        x
    } else {
        step(run(x, events.drop_last()), events.last())
    }
}

/// Whether each event of `events` can happen when its turn comes.
pub open spec fn valid<T, W>(x: Exchange<T, W>, events: Seq<Event<T, W>>) -> bool
    decreases events.len(),
{
    events.len() == 0 || (valid(x, events.drop_last()) && enabled(
        run(x, events.drop_last()),
        events.last(),
    ))
}

/// Whether the consumer has begun a poll in `events`.
pub open spec fn has_look<T, W>(events: Seq<Event<T, W>>) -> bool {
    exists|i: int| 0 <= i < events.len() && #[trigger] events[i] is Look
}

/// After the send, the value is either still in the slot, with nothing handed
/// out, or it was handed out once, to the poll that completed the handle.
pub open spec fn delivered_or_due<T, W>(x: Exchange<T, W>) -> bool {
    x.sent matches Some(value) && if x.finished {
        x.slot is Drained && x.yielded == seq![value] && x.waiting is None
    } else {
        x.slot == Slot::Full(value) && x.yielded.len() == 0
    }
}

/// What holds of every state that a valid run reaches.
pub open spec fn sound<T, W>(x: Exchange<T, W>) -> bool {
    &&& x.finished ==> x.looking is None
    &&& match x.worker {
        Worker::Running => {
            &&& x.slot is Empty
            &&& x.sent is None
            &&& !x.finished
            &&& x.parked == x.waiting
            &&& x.claimed is None
            &&& x.woken.len() == 0
            &&& x.yielded.len() == 0
        },
        Worker::Sent => {
            &&& delivered_or_due(x)
            &&& !x.finished ==> x.parked == x.waiting
            &&& x.claimed is None
            &&& x.woken.len() == 0
        },
        Worker::Claimed => {
            &&& delivered_or_due(x)
            &&& x.parked is None
            &&& x.looking is None
            &&& x.waiting matches Some(handle) ==> x.claimed == Some(handle)
            &&& x.woken.len() == 0
        },
        Worker::Notified => {
            &&& delivered_or_due(x)
            &&& x.parked is None
            &&& x.looking is None
            &&& x.claimed is None
            &&& x.woken.len() <= 1
            &&& x.waiting matches Some(handle) ==> x.woken == seq![handle]
        },
        Worker::Lost => {
            &&& x.slot is Closed
            &&& x.sent is None
            &&& x.finished ==> x.waiting is None
            &&& x.claimed is None
            &&& x.woken.len() == 0
            &&& x.yielded.len() == 0
        },
    }
}

/// A step that can happen keeps a sound state sound.
pub proof fn lemma_step_sound<T, W>(x: Exchange<T, W>, event: Event<T, W>)
    requires
        sound(x),
        enabled(x, event),
    ensures
        sound(step(x, event)),
{
    match event {
        Event::Look(_) => {
            if !x.finished {
                if let Reception::Ready(value) = x.slot.look() {
                    assert(x.yielded.push(value) =~= seq![value]);
                }
            }
        },
        Event::Wake => {
            if let Some(handle) = x.claimed {
                assert(x.woken.push(handle) =~= seq![handle]);
            }
        },
        _ => {},
    }
}

/// Every state that a valid run reaches from the start is sound.
pub proof fn lemma_run_sound<T, W>(events: Seq<Event<T, W>>)
    requires
        valid(start::<T, W>(), events),
    ensures
        sound(run(start::<T, W>(), events)),
    decreases events.len(),
{
    if events.len() > 0 {
        lemma_run_sound(events.drop_last());
        lemma_step_sound(run(start::<T, W>(), events.drop_last()), events.last());
    }
}

/// A run in which no poll began leaves nothing parked, nobody waiting,
/// nothing claimed or woken, and the handle pending.
proof fn lemma_untouched_without_look<T, W>(events: Seq<Event<T, W>>)
    requires
        valid(start::<T, W>(), events),
        !has_look(events),
    ensures
        ({
            let x = run(start::<T, W>(), events);
            &&& x.parked is None
            &&& x.looking is None
            &&& x.claimed is None
            &&& x.waiting is None
            &&& x.woken.len() == 0
            &&& x.yielded.len() == 0
            &&& !x.finished
        }),
    decreases events.len(),
{
    if events.len() > 0 {
        let before = events.drop_last();
        assert(!has_look(before)) by {
            if has_look(before) {
                let i = choose|i: int| 0 <= i < before.len() && #[trigger] before[i] is Look;
                assert(events[i] is Look);
            }
        }
        lemma_untouched_without_look(before);
        assert(!(events[events.len() - 1] is Look));
    }
}

/// Whether the consumer is suspended on `handle`, or about to be: its latest
/// poll found the slot empty with this wake-handle, and either has parked it
/// and returned `Pending` or still holds the lock to do so.
pub open spec fn suspended_on<T, W>(x: Exchange<T, W>, handle: W) -> bool {
    !x.finished && match x.looking {
        Some(held) => held == handle,
        None => x.waiting == Some(handle),
    }
}

/// The state after the steps that the two sides still have to take once the
/// value is in the slot: the poll that holds the lock parks its handle, then
/// the worker claims and wakes, as far as it has not done so.
pub open spec fn settled<T, W>(x: Exchange<T, W>) -> Exchange<T, W> {
    match x.worker {
        Worker::Sent => woken(claimed(parked(x))),
        Worker::Claimed => woken(x),
        _ => x,
    }
}

/// No wakeup is lost. If the worker has sent its value while the consumer is
/// suspended on a wake-handle, or is about to be, then the worker has invoked
/// that handle or is bound to: the steps that are left invoke it. Until the
/// poll has parked its handle the worker cannot claim, and each step that is
/// left can be taken when its turn comes.
pub proof fn no_wakeup_is_lost<T, W>(events: Seq<Event<T, W>>, handle: W)
    requires
        valid(start::<T, W>(), events),
        run(start::<T, W>(), events).sent is Some,
        suspended_on(run(start::<T, W>(), events), handle),
    ensures
        ({
            let x = run(start::<T, W>(), events);
            &&& settled(x).woken.contains(handle)
            &&& x.looking is Some ==> {
                &&& x.worker is Sent
                &&& !enabled(x, Event::<T, W>::Claim)
                &&& enabled(x, Event::<T, W>::Park)
                &&& parked(x).parked == Some(handle)
            }
            &&& x.worker is Sent ==> {
                &&& enabled(parked(x), Event::<T, W>::Claim)
                &&& enabled(claimed(parked(x)), Event::<T, W>::Wake)
            }
            &&& x.worker is Claimed ==> enabled(x, Event::<T, W>::Wake)
            &&& x.worker is Sent || x.worker is Claimed || x.worker is Notified
        }),
{
    lemma_run_sound(events);
    let x = run(start::<T, W>(), events);
    let done = settled(x);
    match x.worker {
        Worker::Sent => {
            assert(claimed(parked(x)).claimed == Some(handle));
            assert(done.woken == x.woken.push(handle));
            assert(done.woken[0] == handle);
        },
        Worker::Claimed => {
            assert(done.woken == x.woken.push(handle));
            assert(done.woken[0] == handle);
        },
        Worker::Notified => {
            assert(done.woken[0] == handle);
        },
        _ => {},
    }
}

/// The consumer gets the closure's value and nothing else, once. A poll
/// returns a value only if it is the one that the worker sent and no poll
/// has returned it before; what was handed out so far is at most that value.
pub proof fn value_arrives_once<T, W>(events: Seq<Event<T, W>>)
    requires
        valid(start::<T, W>(), events),
    ensures
        ({
            let x = run(start::<T, W>(), events);
            &&& x.yielded.len() <= 1
            &&& x.yielded.len() == 1 ==> x.finished && x.sent == Some(x.yielded[0])
            &&& answer(x) matches Poll::Ready(Ok(value)) ==> x.sent == Some(value)
                && x.yielded.len() == 0
        }),
{
    lemma_run_sound(events);
}

/// Once the worker has sent `value`, awaiting the handle yields it: a handle
/// that has completed did so with `value`, and any other completes with
/// `value` at the next look into the slot.
pub proof fn awaiting_yields_sent_value<T, W>(events: Seq<Event<T, W>>, value: T, handle: W)
    requires
        valid(start::<T, W>(), events),
        run(start::<T, W>(), events).sent == Some(value),
    ensures
        ({
            let x = run(start::<T, W>(), events);
            if x.finished {
                x.yielded == seq![value]
            } else {
                &&& answer(x) == Poll::Ready(Ok::<T, Failure>(value))
                &&& looked(x, handle).finished
                &&& looked(x, handle).yielded == seq![value]
            }
        }),
{
    lemma_run_sound(events);
    let x = run(start::<T, W>(), events);
    if !x.finished {
        assert(x.yielded.push(value) =~= seq![value]);
    }
}

/// While the worker runs, a poll suspends: it returns `Pending` and parks its
/// wake-handle in place of any earlier one.
pub proof fn poll_before_send_suspends<T, W>(events: Seq<Event<T, W>>, handle: W)
    requires
        valid(start::<T, W>(), events),
        run(start::<T, W>(), events).worker is Running,
    ensures
        ({
            let x = run(start::<T, W>(), events);
            &&& answer(x) is Pending
            &&& looked(x, handle).looking == Some(handle)
            &&& polled(x, handle).parked == Some(handle)
            &&& polled(x, handle).waiting == Some(handle)
            &&& !polled(x, handle).finished
        }),
{
    lemma_run_sound(events);
}

/// An early poll and the poll after the wakeup. A poll before the send
/// returns `Pending` and parks its wake-handle; the worker's send and
/// notification invoke that handle and no other; the poll that follows returns
/// the value; every poll after that answers `Exhausted` and returns nothing.
/// Each of these steps can be taken when its turn comes.
pub proof fn early_poll_is_woken_and_completes<T, W>(value: T, first: W, second: W, third: W)
    ensures
        ({
            let begun = start::<T, W>();
            let suspended = polled(begun, first);
            let sent = step(suspended, Event::Send(value));
            let notified = woken(claimed(sent));
            let completed = polled(notified, second);
            &&& enabled(begun, Event::Look(first)) && enabled(looked(begun, first), Event::<T, W>::Park)
            &&& answer(begun) is Pending
            &&& suspended.parked == Some(first)
            &&& enabled(suspended, Event::Send(value))
            &&& enabled(sent, Event::<T, W>::Claim) && enabled(claimed(sent), Event::<T, W>::Wake)
            &&& notified.woken == seq![first]
            &&& notified.parked is None
            &&& enabled(notified, Event::Look(second))
            &&& answer(notified) == Poll::Ready(Ok::<T, Failure>(value))
            &&& completed.yielded == seq![value]
            &&& completed.parked is None
            &&& enabled(completed, Event::Look(third))
            &&& answer(completed) == Poll::Ready(Err::<T, Failure>(Failure::Exhausted))
            &&& polled(completed, third) == completed
        }),
{
    let sent = step(polled(start::<T, W>(), first), Event::Send(value));
    assert(sent.woken.push(first) =~= seq![first]);
    assert(sent.yielded.push(value) =~= seq![value]);
}

/// A handle that has completed stays so: every further poll answers
/// `Exhausted`, hands out nothing and changes nothing.
pub proof fn completed_handle_stays_exhausted<T, W>(events: Seq<Event<T, W>>, handle: W)
    requires
        valid(start::<T, W>(), events),
        run(start::<T, W>(), events).finished,
    ensures
        ({
            let x = run(start::<T, W>(), events);
            &&& enabled(x, Event::<T, W>::Look(handle))
            &&& answer(x) == Poll::Ready(Err::<T, Failure>(Failure::Exhausted))
            &&& polled(x, handle) == x
        }),
{
    lemma_run_sound(events);
}

/// A worker that ends without a value fails the handle in the open: the next
/// look of a pending handle returns `Abandoned`, not `Pending`, and completes
/// the handle without handing out a value.
pub proof fn abandoned_work_fails_openly<T, W>(events: Seq<Event<T, W>>, handle: W)
    requires
        valid(start::<T, W>(), events),
        run(start::<T, W>(), events).worker is Lost,
        !run(start::<T, W>(), events).finished,
    ensures
        ({
            let x = run(start::<T, W>(), events);
            &&& answer(x) == Poll::Ready(Err::<T, Failure>(Failure::Abandoned))
            &&& looked(x, handle).finished
            &&& looked(x, handle).yielded.len() == 0
        }),
{
    lemma_run_sound(events);
}

/// A late poll needs no wakeup. If the consumer polls for the first time
/// after the worker has sent `value`, that poll returns `value` at once, and
/// no wake-handle was parked or invoked before it or is parked by it.
pub proof fn late_poll_needs_no_wakeup<T, W>(events: Seq<Event<T, W>>, value: T, handle: W)
    requires
        valid(start::<T, W>(), events),
        !has_look(events),
        run(start::<T, W>(), events).sent == Some(value),
    ensures
        ({
            let x = run(start::<T, W>(), events);
            &&& enabled(x, Event::<T, W>::Look(handle))
            &&& answer(x) == Poll::Ready(Ok::<T, Failure>(value))
            &&& x.parked is None
            &&& x.claimed is None
            &&& x.woken.len() == 0
            &&& polled(x, handle).parked is None
            &&& polled(x, handle).finished
            &&& polled(x, handle).yielded == seq![value]
        }),
{
    lemma_run_sound(events);
    lemma_untouched_without_look(events);
    let x = run(start::<T, W>(), events);
    assert(x.yielded.push(value) =~= seq![value]);
}

/// The exchanges of several dispatches, each under its own number, after one
/// step of the exchange `id`.
pub open spec fn step_at<T, W>(
    all: Map<nat, Exchange<T, W>>,
    id: nat,
    event: Event<T, W>,
) -> Map<nat, Exchange<T, W>> {
    all.insert(id, step(all[id], event))
}

/// The exchanges after the steps of `tagged`, each with the number of the
/// exchange that takes it.
pub open spec fn run_all<T, W>(
    all: Map<nat, Exchange<T, W>>,
    tagged: Seq<(nat, Event<T, W>)>,
) -> Map<nat, Exchange<T, W>>
    decreases tagged.len(),
{
    if tagged.len() == 0 {
        all
    } else {
        step_at(run_all(all, tagged.drop_last()), tagged.last().0, tagged.last().1)
    }
}

/// The steps of `tagged` that the exchange `id` takes, in order.
pub open spec fn events_of<T, W>(tagged: Seq<(nat, Event<T, W>)>, id: nat) -> Seq<Event<T, W>>
    decreases tagged.len(),
{
    if tagged.len() == 0 {
        Seq::empty()
    } else if tagged.last().0 == id {
        events_of(tagged.drop_last(), id).push(tagged.last().1)
    } else {
        events_of(tagged.drop_last(), id)
    }
}

/// Dispatches are independent. However the steps of several exchanges are
/// interleaved, each exchange ends where its own steps alone take it, so what
/// its handle returns does not depend on what the others did.
pub proof fn exchanges_are_independent<T, W>(
    all: Map<nat, Exchange<T, W>>,
    tagged: Seq<(nat, Event<T, W>)>,
    id: nat,
)
    ensures
        run_all(all, tagged)[id] == run(all[id], events_of(tagged, id)),
        answer(run_all(all, tagged)[id]) == answer(run(all[id], events_of(tagged, id))),
    decreases tagged.len(),
{
    if tagged.len() > 0 {
        let before = tagged.drop_last();
        exchanges_are_independent(all, before, id);
        if tagged.last().0 == id {
            let mine = events_of(before, id);
            assert(mine.push(tagged.last().1).drop_last() =~= mine);
        }
    }
}

} // verus!
