//! Notify-once channel: a single slot for one value, sent at most once.
//!
//! One [`ChannelData`] value is the channel's entire shared state: the
//! optional value slot plus independent "consumer side dropped" and
//! "producer side dropped" flags. As in the queue channel, every handle
//! operation takes the state explicitly by `&mut`.
//!
//! At most one value is ever stored: [`Sender::send`] consumes the producer
//! handle, and a channel starts with exactly one. Sending also marks the
//! producer side dropped, so a receiver that finds the slot empty afterwards
//! reports `Closed` rather than waiting forever.

use vstd::prelude::*;

use crate::step::Step;

verus! {

/// Error reported by the suspending receive once the producer handle was
/// dropped without sending a value.
#[derive(Debug, PartialEq, Eq, Structural)]
pub struct RecvError;

/// Error returned by a non-suspending receive attempt: `Empty` while the
/// producer is alive and has not sent yet, `Closed` once it was dropped
/// without sending.
#[derive(Clone, Copy, Debug, PartialEq, Eq, Structural)]
pub enum TryRecvError {
    Empty,
    Closed,
}

/// The channel's shared state: the single value slot and the two
/// side-dropped flags.
pub struct ChannelData<T> {
    msg: Option<T>,
    is_recv_dropped: bool,
    is_send_dropped: bool,
}

impl<T> ChannelData<T> {
    /// The value slot's content, if a value was sent and not yet received.
    pub closed spec fn msg(&self) -> Option<T> {
        self.msg
    }

    /// Whether the consumer side was dropped or closed.
    pub closed spec fn recv_dropped(&self) -> bool {
        self.is_recv_dropped
    }

    /// Whether the producer side is gone, by sending or by being dropped.
    pub closed spec fn send_dropped(&self) -> bool {
        self.is_send_dropped
    }

    fn new() -> (ch: ChannelData<T>)
        ensures
            ch.msg() is None,
            !ch.recv_dropped(),
            !ch.send_dropped(),
    {
        ChannelData { msg: None, is_recv_dropped: false, is_send_dropped: false }
    }

    fn try_recv(&mut self) -> (r: Result<T, TryRecvError>)
        ensures
            r == try_recv_outcome(*old(self)),
            final(self).msg() is None,
            final(self).recv_dropped() == old(self).recv_dropped(),
            final(self).send_dropped() == old(self).send_dropped(),
    {
        if let Some(msg) = self.msg.take() {
            Ok(msg)
        } else if self.is_send_dropped {
            Err(TryRecvError::Closed)
        } else {
            Err(TryRecvError::Empty)
        }
    }
}

/// What a non-suspending receive reports on a given channel state: the
/// slot's value if one is present, `Closed` if the producer side is gone,
/// `Empty` otherwise.
pub open spec fn try_recv_outcome<T>(ch: ChannelData<T>) -> Result<T, TryRecvError> {
    match ch.msg() {
        Some(v) => Ok(v),
        None => if ch.send_dropped() {
            Err(TryRecvError::Closed)
        } else {
            Err(TryRecvError::Empty)
        },
    }
}

/// What one step of the suspending receive reports on a given channel
/// state: the value once sent, a `Closed` error once the producer was
/// dropped without sending, `Suspended` while the producer is still alive.
pub open spec fn recv_outcome<T>(ch: ChannelData<T>) -> Step<Result<T, RecvError>> {
    match ch.msg() {
        Some(v) => Step::Completed(Ok(v)),
        None => if ch.send_dropped() {
            Step::Completed(Err(RecvError))
        } else {
            Step::Suspended
        },
    }
}

/// What sending `value` reports on a given channel state: delivery into the
/// slot unless the consumer side is already gone, in which case the value
/// comes back to the caller.
pub open spec fn send_outcome<T>(ch: ChannelData<T>, value: T) -> Result<(), T> {
    if !ch.recv_dropped() {
        Ok(())
    } else {
        Err(value)
    }
}

/// The consumer handle; its `poll` method is the suspending receive.
#[derive(Debug)]
pub struct Receiver;

impl Receiver {
    /// Non-suspending receive: the slot's value, or an explicit `Empty`
    /// versus `Closed` outcome instead of suspending. Taking the value
    /// empties the slot.
    pub fn try_recv<T>(&mut self, chan: &mut ChannelData<T>) -> (r: Result<T, TryRecvError>)
        ensures
            r == try_recv_outcome(*old(chan)),
            final(chan).msg() is None,
            final(chan).recv_dropped() == old(chan).recv_dropped(),
            final(chan).send_dropped() == old(chan).send_dropped(),
    {
        chan.try_recv()
    }

    /// Mark the consumer side dropped: every send from now on fails and
    /// returns its value.
    pub fn close<T>(&mut self, chan: &mut ChannelData<T>)
        ensures
            final(chan).recv_dropped(),
            final(chan).msg() == old(chan).msg(),
            final(chan).send_dropped() == old(chan).send_dropped(),
    {
        chan.is_recv_dropped = true;
    }

    /// One step of the suspending receive: complete with the value once it
    /// was sent, complete with a `Closed` error once the producer was
    /// dropped without sending, stay suspended while the producer is alive.
    /// Completing with the value empties the slot.
    pub fn poll<T>(&mut self, chan: &mut ChannelData<T>) -> (r: Step<Result<T, RecvError>>)
        ensures
            r == recv_outcome(*old(chan)),
            final(chan).msg() is None,
            final(chan).recv_dropped() == old(chan).recv_dropped(),
            final(chan).send_dropped() == old(chan).send_dropped(),
    {
        match chan.try_recv() {
            Ok(value) => Step::Completed(Ok(value)),
            Err(TryRecvError::Closed) => Step::Completed(Err(RecvError)),
            Err(TryRecvError::Empty) => Step::Suspended,
        }
    }

    /// Give the consumer handle up, marking the consumer side dropped.
    pub fn drop_handle<T>(self, chan: &mut ChannelData<T>)
        ensures
            final(chan).recv_dropped(),
            final(chan).msg() == old(chan).msg(),
            final(chan).send_dropped() == old(chan).send_dropped(),
    {
        chan.is_recv_dropped = true;
    }
}

/// The producer handle; consumed by `send`, so a value can be sent at most
/// once.
#[derive(Debug)]
pub struct Sender;

impl Sender {
    /// Send the one value, consuming this handle. Succeeds unless the
    /// consumer side was already dropped, in which case the value is handed
    /// back. Either way the producer side counts as gone afterwards.
    pub fn send<T>(self, chan: &mut ChannelData<T>, value: T) -> (r: Result<(), T>)
        ensures
            r == send_outcome(*old(chan), value),
            !old(chan).recv_dropped() ==> final(chan).msg() == Some(value),
            old(chan).recv_dropped() ==> final(chan).msg() == old(chan).msg(),
            final(chan).recv_dropped() == old(chan).recv_dropped(),
            final(chan).send_dropped(),
    {
        let r = if !chan.is_recv_dropped {
            chan.msg = Some(value);
            Ok(())
        } else {
            Err(value)
        };
        chan.is_send_dropped = true;
        r
    }

    /// One step of the cooperative-cancellation signal: completes once the
    /// consumer side was dropped, stays suspended while the receiver is
    /// alive. Lets a producer notice disinterest without attempting
    /// delivery.
    pub fn closed<T>(&self, chan: &ChannelData<T>) -> (r: Step<()>)
        ensures
            r == (if chan.recv_dropped() {
                Step::Completed(())
            } else {
                Step::<()>::Suspended
            }),
    {
        if chan.is_recv_dropped {
            Step::Completed(())
        } else {
            Step::Suspended
        }
    }

    /// Non-suspending check of the same condition as `closed`.
    pub fn is_closed<T>(&self, chan: &ChannelData<T>) -> (r: bool)
        ensures
            r == chan.recv_dropped(),
    {
        chan.is_recv_dropped
    }

    /// Give the producer handle up without sending: the receive side then
    /// reports `Closed`.
    pub fn drop_handle<T>(self, chan: &mut ChannelData<T>)
        ensures
            final(chan).send_dropped(),
            final(chan).msg() == old(chan).msg(),
            final(chan).recv_dropped() == old(chan).recv_dropped(),
    {
        chan.is_send_dropped = true;
    }
}

/// Make a notify-once channel: one producer handle, one consumer handle,
/// and the shared state with an empty slot and both sides alive.
pub fn channel<T>() -> (r: (Sender, Receiver, ChannelData<T>))
    ensures
        r.2.msg() is None,
        !r.2.recv_dropped(),
        !r.2.send_dropped(),
{
    (Sender, Receiver, ChannelData::new())
}

/// Law: consumer disinterest is absolute here too. Once the consumer side
/// was dropped, a send fails and hands the offered value back, and both the
/// cancellation signal and its non-suspending check report the condition.
pub proof fn lemma_recv_dropped_send_fails<T>(ch: ChannelData<T>, value: T)
    requires
        ch.recv_dropped(),
    ensures
        send_outcome(ch, value) == Err::<(), T>(value),
{
}

/// Law: a producer that leaves without sending closes the receive side.
/// With the slot empty and the producer side gone, the suspending receive
/// completes with a `Closed` error and the non-suspending receive reports
/// `Closed`; with a value in the slot, both deliver it.
pub proof fn lemma_send_dropped_closes<T>(ch: ChannelData<T>)
    requires
        ch.send_dropped(),
    ensures
        ch.msg() is None ==> recv_outcome(ch) == Step::Completed(
            Err::<T, RecvError>(RecvError),
        ),
        ch.msg() is None ==> try_recv_outcome(ch) == Err::<T, TryRecvError>(TryRecvError::Closed),
        ch.msg() matches Some(v) ==> recv_outcome(ch) == Step::Completed(Ok::<T, RecvError>(v)),
        ch.msg() matches Some(v) ==> try_recv_outcome(ch) == Ok::<T, TryRecvError>(v),
{
}

} // verus!
