//! Multi-producer, single-consumer queue channel, bounded or unbounded.
//!
//! One [`ChannelData`] value is the channel's entire shared state: the FIFO
//! queue of pending values, the optional capacity bound, the count of live
//! producer handles and the `active` flag. The real runtime would share this
//! state behind a reference-counted lock; here every handle operation takes
//! the state explicitly by `&mut`, so each transition is stated in a
//! contract and checked.
//!
//! Handle lifetime is explicit as well: cloning a [`Sender`] goes through
//! [`Sender::clone_handle`], which increments the producer count, and a
//! handle leaves the channel through its `drop_handle` method. Dropping the
//! [`Receiver`] marks the channel inactive at once, whatever the producer
//! count; producer disinterest is counted down one handle at a time.

use vstd::prelude::*;

use crate::step::Step;

verus! {

/// Error returned by a suspending or unbounded send on an inactive channel;
/// the undelivered value is handed back, never silently dropped.
#[derive(Debug, PartialEq, Eq)]
pub struct SendError<T>(pub T);

/// Error returned by a non-suspending send attempt, giving the value back in
/// either case: `Full` when a bounded queue has no room, `Closed` when the
/// channel is inactive.
#[derive(Debug, PartialEq, Eq)]
pub enum TrySendError<T> {
    Full(T),
    Closed(T),
}

/// Error returned by a non-suspending receive attempt: `Empty` while
/// producers remain, `Closed` once the queue is drained and no producer
/// handle is left.
#[derive(Clone, Copy, Debug, PartialEq, Eq, Structural)]
pub enum TryRecvError {
    Empty,
    Closed,
}

/// One step of a suspending send. `Suspended` hands the value back so the
/// caller can offer it again once capacity frees; `Completed` reports the
/// send's final result, with the value returned inside the error when the
/// channel is inactive.
#[derive(Debug)]
pub enum SendPoll<T> {
    Suspended(T),
    Completed(Result<(), SendError<T>>),
}

/// The channel's shared state: queue, capacity bound, producer count and
/// activity flag.
pub struct ChannelData<T> {
    queue: std::collections::VecDeque<T>,
    max_size: Option<usize>,
    num_senders: usize,
    is_active: bool,
}

impl<T> ChannelData<T> {
    /// The pending values, head first.
    pub closed spec fn queue(&self) -> Seq<T> {
        self.queue@
    }

    /// The capacity bound; `None` means unbounded.
    pub closed spec fn cap(&self) -> Option<usize> {
        self.max_size
    }

    /// The number of live producer handles.
    pub closed spec fn senders(&self) -> nat {
        self.num_senders as nat
    }

    /// Whether sends may still succeed; cleared when the receiver leaves.
    pub closed spec fn active(&self) -> bool {
        self.is_active
    }

    /// A send can go through right now: the channel is active and the queue
    /// is below its bound (or unbounded).
    pub open spec fn can_accept(&self) -> bool {
        self.active() && match self.cap() {
            Some(c) => self.queue().len() < c,
            None => true,
        }
    }

    /// The queue respects the capacity bound.
    pub open spec fn wf(&self) -> bool {
        match self.cap() {
            Some(c) => self.queue().len() <= c,
            None => true,
        }
    }

    fn new(max_size: Option<usize>) -> (ch: ChannelData<T>)
        ensures
            ch.queue() == Seq::<T>::empty(),
            ch.cap() == max_size,
            ch.senders() == 1,
            ch.active(),
    {
        ChannelData {
            queue: std::collections::VecDeque::new(),
            max_size,
            num_senders: 1,
            is_active: true,
        }
    }

    fn try_recv(&mut self) -> (r: Result<T, TryRecvError>)
        ensures
            r == try_recv_outcome(*old(self)),
            old(self).queue().len() > 0 ==> final(self).queue() == old(self).queue().drop_first(),
            old(self).queue().len() == 0 ==> final(self).queue() == old(self).queue(),
            final(self).cap() == old(self).cap(),
            final(self).senders() == old(self).senders(),
            final(self).active() == old(self).active(),
    {
        if let Some(msg) = self.queue.pop_front() {
            Ok(msg)
        } else if self.num_senders == 0 {
            Err(TryRecvError::Closed)
        } else {
            Err(TryRecvError::Empty)
        }
    }

    fn try_send(&mut self, value: T) -> (r: Result<(), TrySendError<T>>)
        ensures
            r == try_send_outcome(*old(self), value),
            old(self).can_accept() ==> final(self).queue() == old(self).queue().push(value),
            !old(self).can_accept() ==> final(self).queue() == old(self).queue(),
            final(self).cap() == old(self).cap(),
            final(self).senders() == old(self).senders(),
            final(self).active() == old(self).active(),
            old(self).wf() ==> final(self).wf(),
    {
        if !self.is_active {
            return Err(TrySendError::Closed(value));
        }
        let below_bound = match self.max_size {
            Some(max_size) => self.queue.len() < max_size,
            None => true,
        };
        if below_bound {
            self.queue.push_back(value);
            Ok(())
        } else {
            Err(TrySendError::Full(value))
        }
    }
}

/// What a non-suspending receive reports on a given channel state.
pub open spec fn try_recv_outcome<T>(ch: ChannelData<T>) -> Result<T, TryRecvError> {
    if ch.queue().len() > 0 {
        Ok(ch.queue()[0])
    } else if ch.senders() == 0 {
        Err(TryRecvError::Closed)
    } else {
        Err(TryRecvError::Empty)
    }
}

/// What one step of a suspending receive reports on a given channel state:
/// the head value if one is pending, end-of-stream (`None`) once the queue
/// is drained and every producer handle is gone, `Suspended` otherwise.
pub open spec fn recv_outcome<T>(ch: ChannelData<T>) -> Step<Option<T>> {
    if ch.queue().len() > 0 {
        Step::Completed(Some(ch.queue()[0]))
    } else if ch.senders() == 0 {
        Step::Completed(None)
    } else {
        Step::Suspended
    }
}

/// What a non-suspending send of `value` reports on a given channel state.
pub open spec fn try_send_outcome<T>(ch: ChannelData<T>, value: T) -> Result<
    (),
    TrySendError<T>,
> {
    if !ch.active() {
        Err(TrySendError::Closed(value))
    } else if ch.can_accept() {
        Ok(())
    } else {
        Err(TrySendError::Full(value))
    }
}

/// What one step of a suspending send of `value` reports on a given channel
/// state: immediate success when there is room, the value handed back inside
/// `Suspended` while the queue is full, immediate failure (value returned)
/// when the channel is inactive.
pub open spec fn send_outcome<T>(ch: ChannelData<T>, value: T) -> SendPoll<T> {
    if !ch.active() {
        SendPoll::Completed(Err(SendError(value)))
    } else if ch.can_accept() {
        SendPoll::Completed(Ok(()))
    } else {
        SendPoll::Suspended(value)
    }
}

/// What an unbounded send of `value` reports on a given channel state.
pub open spec fn unbounded_send_outcome<T>(ch: ChannelData<T>, value: T) -> Result<
    (),
    SendError<T>,
> {
    if ch.active() {
        Ok(())
    } else {
        Err(SendError(value))
    }
}

/// The consumer handle of a channel.
#[derive(Debug)]
pub struct Receiver;

impl Receiver {
    /// One step of the suspending receive: dequeue the head if any value is
    /// pending, report end-of-stream (`None`) once the queue is drained and
    /// no producer handle remains, stay suspended otherwise.
    pub fn recv<T>(&mut self, chan: &mut ChannelData<T>) -> (r: Step<Option<T>>)
        ensures
            r == recv_outcome(*old(chan)),
            old(chan).queue().len() > 0 ==> final(chan).queue() == old(chan).queue().drop_first(),
            old(chan).queue().len() == 0 ==> final(chan).queue() == old(chan).queue(),
            final(chan).cap() == old(chan).cap(),
            final(chan).senders() == old(chan).senders(),
            final(chan).active() == old(chan).active(),
    {
        match chan.try_recv() {
            Ok(msg) => Step::Completed(Some(msg)),
            Err(TryRecvError::Closed) => Step::Completed(None),
            Err(TryRecvError::Empty) => Step::Suspended,
        }
    }

    /// Non-suspending receive: the head value, or an explicit `Empty` versus
    /// `Closed` outcome instead of suspending.
    pub fn try_recv<T>(&mut self, chan: &mut ChannelData<T>) -> (r: Result<T, TryRecvError>)
        ensures
            r == try_recv_outcome(*old(chan)),
            old(chan).queue().len() > 0 ==> final(chan).queue() == old(chan).queue().drop_first(),
            old(chan).queue().len() == 0 ==> final(chan).queue() == old(chan).queue(),
            final(chan).cap() == old(chan).cap(),
            final(chan).senders() == old(chan).senders(),
            final(chan).active() == old(chan).active(),
    {
        chan.try_recv()
    }

    /// Mark the channel inactive: every later send fails and returns its
    /// value. Values already queued can still be received.
    pub fn close<T>(&mut self, chan: &mut ChannelData<T>)
        ensures
            !final(chan).active(),
            final(chan).queue() == old(chan).queue(),
            final(chan).cap() == old(chan).cap(),
            final(chan).senders() == old(chan).senders(),
    {
        chan.is_active = false;
    }

    /// Give the consumer handle up. Consumer disinterest is global and
    /// instantaneous: the channel becomes inactive at once, whatever the
    /// producer count.
    pub fn drop_handle<T>(self, chan: &mut ChannelData<T>)
        ensures
            !final(chan).active(),
            final(chan).queue() == old(chan).queue(),
            final(chan).cap() == old(chan).cap(),
            final(chan).senders() == old(chan).senders(),
    {
        chan.is_active = false;
    }
}

/// A producer handle of a bounded channel.
#[derive(Debug)]
pub struct Sender;

impl Sender {
    /// One step of the suspending send: enqueue at the tail and complete if
    /// the channel is active and below its bound; hand the value back inside
    /// `Suspended` while the queue is full; fail at once, returning the
    /// value, if the channel is inactive.
    pub fn send<T>(&mut self, chan: &mut ChannelData<T>, value: T) -> (r: SendPoll<T>)
        ensures
            r == send_outcome(*old(chan), value),
            old(chan).can_accept() ==> final(chan).queue() == old(chan).queue().push(value),
            !old(chan).can_accept() ==> final(chan).queue() == old(chan).queue(),
            final(chan).cap() == old(chan).cap(),
            final(chan).senders() == old(chan).senders(),
            final(chan).active() == old(chan).active(),
            old(chan).wf() ==> final(chan).wf(),
    {
        match chan.try_send(value) {
            Ok(()) => SendPoll::Completed(Ok(())),
            Err(TrySendError::Closed(v)) => SendPoll::Completed(Err(SendError(v))),
            Err(TrySendError::Full(v)) => SendPoll::Suspended(v),
        }
    }

    /// Non-suspending send: the same capacity rule as `send`, with `Full`
    /// reported instead of suspending.
    pub fn try_send<T>(&mut self, chan: &mut ChannelData<T>, value: T) -> (r: Result<
        (),
        TrySendError<T>,
    >)
        ensures
            r == try_send_outcome(*old(chan), value),
            old(chan).can_accept() ==> final(chan).queue() == old(chan).queue().push(value),
            !old(chan).can_accept() ==> final(chan).queue() == old(chan).queue(),
            final(chan).cap() == old(chan).cap(),
            final(chan).senders() == old(chan).senders(),
            final(chan).active() == old(chan).active(),
            old(chan).wf() ==> final(chan).wf(),
    {
        chan.try_send(value)
    }

    /// Make one more producer handle, incrementing the channel's producer
    /// count (saturating, so the count can never wrap).
    pub fn clone_handle<T>(&self, chan: &mut ChannelData<T>) -> (tx: Sender)
        ensures
            final(chan).senders() == if old(chan).senders() < usize::MAX {
                old(chan).senders() + 1
            } else {
                old(chan).senders()
            },
            final(chan).queue() == old(chan).queue(),
            final(chan).cap() == old(chan).cap(),
            final(chan).active() == old(chan).active(),
    {
        chan.num_senders = chan.num_senders.saturating_add(1);
        Sender
    }

    /// Give this producer handle up, decrementing the channel's producer
    /// count (saturating, so the count never goes negative). Once the count
    /// reaches zero, the receive side observes end-of-stream.
    pub fn drop_handle<T>(self, chan: &mut ChannelData<T>)
        ensures
            final(chan).senders() == if old(chan).senders() > 0 {
                old(chan).senders() - 1
            } else {
                0
            },
            final(chan).queue() == old(chan).queue(),
            final(chan).cap() == old(chan).cap(),
            final(chan).active() == old(chan).active(),
    {
        chan.num_senders = chan.num_senders.saturating_sub(1);
    }
}

/// A producer handle of an unbounded channel.
#[derive(Debug)]
pub struct UnboundedSender;

impl UnboundedSender {
    /// Send without a capacity bound: enqueue at the tail whenever the
    /// channel is active, fail and return the value once it is not. Never
    /// suspends.
    pub fn send<T>(&mut self, chan: &mut ChannelData<T>, value: T) -> (r: Result<
        (),
        SendError<T>,
    >)
        requires
            old(chan).cap() is None,
        ensures
            r == unbounded_send_outcome(*old(chan), value),
            old(chan).active() ==> final(chan).queue() == old(chan).queue().push(value),
            !old(chan).active() ==> final(chan).queue() == old(chan).queue(),
            final(chan).cap() == old(chan).cap(),
            final(chan).senders() == old(chan).senders(),
            final(chan).active() == old(chan).active(),
    {
        if chan.is_active {
            chan.queue.push_back(value);
            Ok(())
        } else {
            Err(SendError(value))
        }
    }

    /// Non-suspending send; on an unbounded channel it can only fail with
    /// `Closed`, never `Full`.
    pub fn try_send<T>(&mut self, chan: &mut ChannelData<T>, value: T) -> (r: Result<
        (),
        TrySendError<T>,
    >)
        ensures
            r == try_send_outcome(*old(chan), value),
            old(chan).can_accept() ==> final(chan).queue() == old(chan).queue().push(value),
            !old(chan).can_accept() ==> final(chan).queue() == old(chan).queue(),
            final(chan).cap() == old(chan).cap(),
            final(chan).senders() == old(chan).senders(),
            final(chan).active() == old(chan).active(),
            old(chan).wf() ==> final(chan).wf(),
    {
        chan.try_send(value)
    }

    /// Make one more producer handle, incrementing the channel's producer
    /// count (saturating, so the count can never wrap).
    pub fn clone_handle<T>(&self, chan: &mut ChannelData<T>) -> (tx: UnboundedSender)
        ensures
            final(chan).senders() == if old(chan).senders() < usize::MAX {
                old(chan).senders() + 1
            } else {
                old(chan).senders()
            },
            final(chan).queue() == old(chan).queue(),
            final(chan).cap() == old(chan).cap(),
            final(chan).active() == old(chan).active(),
    {
        chan.num_senders = chan.num_senders.saturating_add(1);
        UnboundedSender
    }

    /// Give this producer handle up, decrementing the channel's producer
    /// count (saturating, so the count never goes negative). Once the count
    /// reaches zero, the receive side observes end-of-stream.
    pub fn drop_handle<T>(self, chan: &mut ChannelData<T>)
        ensures
            final(chan).senders() == if old(chan).senders() > 0 {
                old(chan).senders() - 1
            } else {
                0
            },
            final(chan).queue() == old(chan).queue(),
            final(chan).cap() == old(chan).cap(),
            final(chan).active() == old(chan).active(),
    {
        chan.num_senders = chan.num_senders.saturating_sub(1);
    }
}

/// Make a bounded channel: one producer handle, one consumer handle, and the
/// shared state with capacity fixed at `buffer`, an empty queue, one live
/// producer and the channel active.
pub fn channel<T>(buffer: usize) -> (r: (Sender, Receiver, ChannelData<T>))
    ensures
        r.2.queue() == Seq::<T>::empty(),
        r.2.cap() == Some(buffer),
        r.2.senders() == 1,
        r.2.active(),
        r.2.wf(),
{
    (Sender, Receiver, ChannelData::new(Some(buffer)))
}

/// Make an unbounded channel: one producer handle, one consumer handle, and
/// the shared state with no capacity bound, an empty queue, one live
/// producer and the channel active.
pub fn unbounded_channel<T>() -> (r: (UnboundedSender, Receiver, ChannelData<T>))
    ensures
        r.2.queue() == Seq::<T>::empty(),
        r.2.cap() is None,
        r.2.senders() == 1,
        r.2.active(),
        r.2.wf(),
{
    (UnboundedSender, Receiver, ChannelData::new(None))
}

/// Law: back-pressure at the bound. On an active bounded channel whose queue
/// has reached its capacity, one step of a suspending send hands the value
/// back as `Suspended` and a non-suspending send reports `Full`.
pub proof fn lemma_bounded_send_suspends<T>(ch: ChannelData<T>, value: T)
    requires
        ch.active(),
        ch.cap() matches Some(c) && ch.queue().len() >= c,
    ensures
        send_outcome(ch, value) == SendPoll::Suspended(value),
        try_send_outcome(ch, value) == Err::<(), TrySendError<T>>(TrySendError::Full(value)),
{
}

/// Law: one receive frees the suspended send. If a channel state `after` is
/// `before` with the head value dequeued and `before`'s queue was exactly at
/// its capacity bound, a send on `after` completes at once.
pub proof fn lemma_recv_unblocks_send<T>(before: ChannelData<T>, after: ChannelData<T>, value: T)
    requires
        before.active(),
        before.cap() matches Some(c) && before.queue().len() == c,
        before.queue().len() > 0,
        after.queue() == before.queue().drop_first(),
        after.cap() == before.cap(),
        after.active() == before.active(),
    ensures
        after.can_accept(),
        send_outcome(after, value) == SendPoll::Completed(Ok::<(), SendError<T>>(())),
        try_send_outcome(after, value) == Ok::<(), TrySendError<T>>(()),
{
}

/// Law: end-of-stream exactly once the producers are gone. With no live
/// producer handle and a drained queue, a receive step completes with
/// end-of-stream (`None`), a non-suspending receive reports `Closed`, and
/// (both leaving the state unchanged) every later attempt reports the same;
/// while values remain queued, receives still drain them head first.
pub proof fn lemma_end_of_stream<T>(ch: ChannelData<T>)
    requires
        ch.senders() == 0,
    ensures
        ch.queue().len() == 0 ==> recv_outcome(ch) == Step::Completed(None::<T>),
        ch.queue().len() == 0 ==> try_recv_outcome(ch) == Err::<T, TryRecvError>(
            TryRecvError::Closed,
        ),
        ch.queue().len() > 0 ==> recv_outcome(ch) == Step::Completed(Some(ch.queue()[0])),
        ch.queue().len() > 0 ==> try_recv_outcome(ch) == Ok::<T, TryRecvError>(ch.queue()[0]),
{
}

/// Law: consumer disinterest is absolute. On an inactive channel (the
/// receiver was dropped or closed) every send, suspending, non-suspending or
/// unbounded, fails at once and hands the offered value back, whichever
/// producer handle offers it.
pub proof fn lemma_inactive_send_fails<T>(ch: ChannelData<T>, value: T)
    requires
        !ch.active(),
    ensures
        send_outcome(ch, value) == SendPoll::Completed(
            Err::<(), SendError<T>>(SendError(value)),
        ),
        try_send_outcome(ch, value) == Err::<(), TrySendError<T>>(TrySendError::Closed(value)),
        unbounded_send_outcome(ch, value) == Err::<(), SendError<T>>(SendError(value)),
{
}

} // verus!
