use vstd::prelude::*;

verus! {

/// The error of a receive that got no value.
#[derive(Debug, Clone, Copy, PartialEq, Eq)]
pub struct RecvError;

/// The value of a send that found the receiver gone.
#[derive(Debug, PartialEq, Eq)]
pub struct SendError<T>(pub T);

impl RecvError {
    /// The text of this error.
    pub fn to_string(&self) -> (s: String)
        ensures
            s@ == "channel closed"@,
    {
        String::from_str("channel closed")
    }
}

impl<T> SendError<T> {
    /// The text of this error.
    pub fn to_string(&self) -> (s: String)
        ensures
            s@ == "receiver dropped"@,
    {
        String::from_str("receiver dropped")
    }
}

/// What an asynchronous wait reports after one attempt.
pub enum OneshotPoll<R> {
    /// The wait is over with this result.
    Ready(R),
    /// Not yet: the caller's waker was stored.
    Pending,
}

/// What a blocking receive reports after one attempt under the lock.
pub enum OneshotStep<T> {
    /// The receive finished.
    Done(Result<T, RecvError>),
    /// Nothing yet: the caller waits on the condition.
    Wait,
}

/// Who must be woken after an operation: the stored waker, if taken, and
/// all threads waiting on the condition when `broadcast` holds.
pub struct OneshotNotify<W> {
    pub waker: Option<W>,
    pub broadcast: bool,
}

/// The abstract state of a oneshot channel.
pub struct OneshotView<T, W> {
    /// The value sent and not yet received.
    pub value: Option<T>,
    /// Whether the sender has not been dropped.
    pub sender_alive: bool,
    /// Whether the receiver is still open.
    pub receiver_alive: bool,
    /// The one waker slot, shared by a waiting receiver and a sender waiting for closure.
    pub waker: Option<W>,
}

/// One transition of a oneshot channel.
pub struct OneshotTransition<T, W, R> {
    pub next: OneshotView<T, W>,
    pub output: R,
    pub woken: Option<W>,
    pub broadcast: bool,
}

impl<T, W> OneshotView<T, W> {
    /// The state of a new channel: nothing sent, both ends alive.
    pub open spec fn initial() -> Self {
        OneshotView { value: None, sender_alive: true, receiver_alive: true, waker: None }
    }

    /// The transition that makes no change and wakes nobody.
    pub open spec fn stay<R>(self, output: R) -> OneshotTransition<T, W, R> {
        OneshotTransition { next: self, output, woken: None, broadcast: false }
    }

    /// Sending: refused with the value when the receiver is gone; otherwise
    /// the value is stored and the waiting side woken.
    pub open spec fn send(self, value: T) -> OneshotTransition<T, W, Result<(), SendError<T>>> {
        if !self.receiver_alive {
            self.stay(Err(SendError(value)))
        } else {
            OneshotTransition {
                next: OneshotView { value: Some(value), waker: None, ..self },
                output: Ok(()),
                woken: self.waker,
                broadcast: true,
            }
        }
    }

    /// One attempt of a sender waiting for the receiver to close.
    pub open spec fn poll_closed(self, waker: W) -> OneshotTransition<T, W, OneshotPoll<()>> {
        if !self.receiver_alive {
            self.stay(OneshotPoll::Ready(()))
        } else {
            OneshotTransition {
                next: OneshotView { waker: Some(waker), ..self },
                output: OneshotPoll::Pending,
                woken: None,
                broadcast: false,
            }
        }
    }

    /// The sender goes away without sending.
    pub open spec fn drop_sender(self) -> OneshotTransition<T, W, ()> {
        OneshotTransition {
            next: OneshotView { sender_alive: false, waker: None, ..self },
            output: (),
            woken: self.waker,
            broadcast: true,
        }
    }

    /// A receive that does not wait: the value if it is there, else an error.
    pub open spec fn try_recv(self) -> OneshotTransition<T, W, Result<T, RecvError>> {
        match self.value {
            Some(v) => self.stay(Ok(v)).with_next(OneshotView { value: None, ..self }),
            None => self.stay(Err(RecvError)),
        }
    }

    /// One attempt of a blocking receive.
    pub open spec fn blocking_recv_step(self) -> OneshotTransition<T, W, OneshotStep<T>> {
        match self.value {
            Some(v) => self.stay(OneshotStep::Done(Ok(v))).with_next(
                OneshotView { value: None, ..self },
            ),
            None => if !self.sender_alive {
                self.stay(OneshotStep::Done(Err(RecvError)))
            } else {
                self.stay(OneshotStep::Wait)
            },
        }
    }

    /// One attempt of an asynchronous receive.
    pub open spec fn poll_recv(self, waker: W) -> OneshotTransition<
        T,
        W,
        OneshotPoll<Result<T, RecvError>>,
    > {
        match self.value {
            Some(v) => self.stay(OneshotPoll::Ready(Ok(v))).with_next(
                OneshotView { value: None, ..self },
            ),
            None => if !self.sender_alive {
                self.stay(OneshotPoll::Ready(Err(RecvError)))
            } else {
                OneshotTransition {
                    next: OneshotView { waker: Some(waker), ..self },
                    output: OneshotPoll::Pending,
                    woken: None,
                    broadcast: false,
                }
            },
        }
    }

    /// Closing the receiver: later sends fail, and a sender waiting for the
    /// receiver to close is woken.
    pub open spec fn close(self) -> OneshotTransition<T, W, ()> {
        OneshotTransition {
            next: OneshotView { receiver_alive: false, waker: None, ..self },
            output: (),
            woken: self.waker,
            broadcast: true,
        }
    }

    /// The receiver goes away: later sends fail and a waiting sender is woken.
    pub open spec fn drop_receiver(self) -> OneshotTransition<T, W, ()> {
        OneshotTransition {
            next: OneshotView { receiver_alive: false, waker: None, ..self },
            output: (),
            woken: self.waker,
            broadcast: true,
        }
    }
}

impl<T, W, R> OneshotTransition<T, W, R> {
    /// The same transition with another resulting state.
    pub open spec fn with_next(self, next: OneshotView<T, W>) -> Self {
        OneshotTransition { next, ..self }
    }
}

/// The shared state of a channel that carries one value.
pub struct OneshotState<T, W> {
    value: Option<T>,
    sender_alive: bool,
    receiver_alive: bool,
    waker: Option<W>,
}

impl<T, W> View for OneshotState<T, W> {
    type V = OneshotView<T, W>;

    closed spec fn view(&self) -> OneshotView<T, W> {
        OneshotView {
            value: self.value,
            sender_alive: self.sender_alive,
            receiver_alive: self.receiver_alive,
            waker: self.waker,
        }
    }
}

impl<T, W> OneshotState<T, W> {
    /// A new channel with nothing sent and both ends alive.
    pub fn new() -> (s: Self)
        ensures
            s@ == OneshotView::<T, W>::initial(),
    {
        OneshotState { value: None, sender_alive: true, receiver_alive: true, waker: None }
    }

    /// Sends the value unless the receiver is gone, in which case it comes back.
    pub fn send(&mut self, value: T) -> (r: (Result<(), SendError<T>>, OneshotNotify<W>))
        ensures
            ({
                let t = old(self)@.send(value);
                &&& final(self)@ == t.next
                &&& r.0 == t.output
                &&& r.1.waker == t.woken
                &&& r.1.broadcast == t.broadcast
            }),
    {
        if !self.receiver_alive {
            return (Err(SendError(value)), OneshotNotify { waker: None, broadcast: false });
        }
        self.value = Some(value);
        let w = self.waker.take();
        (Ok(()), OneshotNotify { waker: w, broadcast: true })
    }

    /// Whether the receiver is closed.
    pub fn is_closed(&self) -> (b: bool)
        ensures
            b == !self@.receiver_alive,
    {
        !self.receiver_alive
    }

    /// One attempt of a sender waiting for the receiver to close.
    pub fn poll_closed(&mut self, waker: W) -> (r: OneshotPoll<()>)
        ensures
            ({
                let t = old(self)@.poll_closed(waker);
                &&& final(self)@ == t.next
                &&& r == t.output
            }),
    {
        if !self.receiver_alive {
            OneshotPoll::Ready(())
        } else {
            self.waker = Some(waker);
            OneshotPoll::Pending
        }
    }

    /// The sender goes away without sending.
    pub fn drop_sender(&mut self) -> (n: OneshotNotify<W>)
        ensures
            ({
                let t = old(self)@.drop_sender();
                &&& final(self)@ == t.next
                &&& n.waker == t.woken
                &&& n.broadcast == t.broadcast
            }),
    {
        self.sender_alive = false;
        let w = self.waker.take();
        OneshotNotify { waker: w, broadcast: true }
    }

    /// Takes the value if it has been sent.
    pub fn try_recv(&mut self) -> (r: Result<T, RecvError>)
        ensures
            ({
                let t = old(self)@.try_recv();
                &&& final(self)@ == t.next
                &&& r == t.output
            }),
    {
        match self.value.take() {
            Some(v) => Ok(v),
            None => Err(RecvError),
        }
    }

    /// One attempt of a blocking receive.
    pub fn blocking_recv_step(&mut self) -> (r: OneshotStep<T>)
        ensures
            ({
                let t = old(self)@.blocking_recv_step();
                &&& final(self)@ == t.next
                &&& r == t.output
            }),
    {
        match self.value.take() {
            Some(v) => OneshotStep::Done(Ok(v)),
            None => if !self.sender_alive {
                OneshotStep::Done(Err(RecvError))
            } else {
                OneshotStep::Wait
            },
        }
    }

    /// One attempt of an asynchronous receive, leaving `waker` behind when
    /// nothing has been sent yet.
    pub fn poll_recv(&mut self, waker: W) -> (r: OneshotPoll<Result<T, RecvError>>)
        ensures
            ({
                let t = old(self)@.poll_recv(waker);
                &&& final(self)@ == t.next
                &&& r == t.output
            }),
    {
        match self.value.take() {
            Some(v) => OneshotPoll::Ready(Ok(v)),
            None => if !self.sender_alive {
                OneshotPoll::Ready(Err(RecvError))
            } else {
                self.waker = Some(waker);
                OneshotPoll::Pending
            },
        }
    }

    /// Closes the receiver; later sends fail and a sender waiting for that is woken.
    pub fn close(&mut self) -> (n: OneshotNotify<W>)
        ensures
            ({
                let t = old(self)@.close();
                &&& final(self)@ == t.next
                &&& n.waker == t.woken
                &&& n.broadcast == t.broadcast
            }),
    {
        self.receiver_alive = false;
        let w = self.waker.take();
        OneshotNotify { waker: w, broadcast: true }
    }

    /// The receiver goes away; a sender waiting for that is woken.
    pub fn drop_receiver(&mut self) -> (n: OneshotNotify<W>)
        ensures
            ({
                let t = old(self)@.drop_receiver();
                &&& final(self)@ == t.next
                &&& n.waker == t.woken
                &&& n.broadcast == t.broadcast
            }),
    {
        self.receiver_alive = false;
        let w = self.waker.take();
        OneshotNotify { waker: w, broadcast: true }
    }
}

/// A value sent to a live receiver is what the receiver gets, by any kind of
/// receive, and it is handed out only once.
pub proof fn lemma_send_then_recv<T, W>(v: OneshotView<T, W>, x: T, w: W)
    requires
        v.receiver_alive,
    ensures
        ({
            let s = v.send(x);
            &&& s.output == Ok::<(), SendError<T>>(())
            &&& s.next.try_recv().output == Ok::<T, RecvError>(x)
            &&& s.next.try_recv().next.try_recv().output == Err::<T, RecvError>(RecvError)
            &&& s.next.blocking_recv_step().output == OneshotStep::Done(Ok(x))
            &&& s.next.poll_recv(w).output == OneshotPoll::Ready(Ok::<T, RecvError>(x))
        }),
{
}

/// When the sender goes away without sending, every kind of receive reports an error.
pub proof fn lemma_recv_after_sender_dropped<T, W>(v: OneshotView<T, W>, w: W)
    requires
        v.value is None,
    ensures
        ({
            let d = v.drop_sender().next;
            &&& d.try_recv().output == Err::<T, RecvError>(RecvError)
            &&& d.blocking_recv_step().output == OneshotStep::<T>::Done(Err(RecvError))
            &&& d.poll_recv(w).output == OneshotPoll::Ready(Err::<T, RecvError>(RecvError))
        }),
{
}

/// Once the receiver is dropped or closed, a send is refused, hands the value
/// back and changes nothing, and a sender waiting for closure is done.
pub proof fn lemma_send_after_receiver_gone<T, W>(v: OneshotView<T, W>, x: T, w: W)
    ensures
        v.drop_receiver().next.send(x).output == Err::<(), SendError<T>>(SendError(x)),
        v.drop_receiver().next.send(x).next == v.drop_receiver().next,
        v.close().next.send(x).output == Err::<(), SendError<T>>(SendError(x)),
        v.drop_receiver().next.poll_closed(w).output == OneshotPoll::Ready(()),
        v.close().next.poll_closed(w).output == OneshotPoll::Ready(()),
{
}

/// Whoever waits on the channel is woken when the other side acts: a send
/// wakes a waiting receiver, and closing the receiver or dropping either end
/// wakes the waker left there.
pub proof fn lemma_oneshot_wakeups<T, W>(v: OneshotView<T, W>, x: T)
    ensures
        v.receiver_alive ==> v.send(x).woken == v.waker && v.send(x).next.waker is None,
        v.drop_sender().woken == v.waker,
        v.drop_receiver().woken == v.waker,
        v.close().woken == v.waker && v.close().next.waker is None,
{
}

/// A receive waits for the sender: with no value stored and the sender still
/// there, a blocking receive waits and changes nothing, and an asynchronous one
/// is pending; a receive fails only when nothing was sent and the sender is
/// gone, and succeeds with the stored value whenever there is one.
pub proof fn lemma_recv_waits_for_sender<T, W>(v: OneshotView<T, W>, w: W)
    ensures
        v.value is None && v.sender_alive ==> v.blocking_recv_step().output is Wait
            && v.blocking_recv_step().next == v && v.poll_recv(w).output is Pending,
        v.blocking_recv_step().output == OneshotStep::<T>::Done(Err(RecvError)) ==> v.value is None
            && !v.sender_alive,
        v.poll_recv(w).output == OneshotPoll::Ready(Err::<T, RecvError>(RecvError)) ==> v.value is None
            && !v.sender_alive,
        v.value matches Some(x) ==> v.blocking_recv_step().output == OneshotStep::Done(Ok(x))
            && v.blocking_recv_step().next.value is None && v.try_recv().output == Ok::<T, RecvError>(
            x,
        ),
{
}

} // verus!
