use std::collections::VecDeque;
use vstd::prelude::*;

verus! {

/// The value of a send that found the receiving side closed.
#[derive(Debug, Clone, Copy, PartialEq, Eq)]
pub struct SendError<T>(pub T);

/// The error of a receive on a channel whose senders are all gone.
#[derive(Debug, Clone, Copy, PartialEq, Eq)]
pub struct RecvError;

/// Why a non-waiting send did not go through; the value comes back in either case.
#[derive(Debug, Clone, Copy, PartialEq, Eq)]
pub enum TrySendError<T> {
    /// The queue is at its capacity.
    Full(T),
    /// The receiving side is closed.
    Disconnected(T),
}

/// Why a non-waiting receive found nothing.
#[derive(Debug, Clone, Copy, PartialEq, Eq)]
pub enum TryRecvError {
    /// The queue is empty but senders remain.
    Empty,
    /// The queue is empty and every sender is gone.
    Disconnected,
}

impl<T> SendError<T> {
    /// The text of this error.
    pub fn to_string(&self) -> (s: String)
        ensures
            s@ == "receiver dropped"@,
    {
        String::from_str("receiver dropped")
    }
}

impl RecvError {
    /// The text of this error.
    pub fn to_string(&self) -> (s: String)
        ensures
            s@ == "all senders dropped"@,
    {
        String::from_str("all senders dropped")
    }
}

impl<T> TrySendError<T> {
    /// The text of this error.
    pub fn to_string(&self) -> (s: String)
        ensures
            self is Full ==> s@ == "channel full"@,
            self is Disconnected ==> s@ == "receiver dropped"@,
    {
        match self {
            TrySendError::Full(_) => String::from_str("channel full"),
            TrySendError::Disconnected(_) => String::from_str("receiver dropped"),
        }
    }
}

impl TryRecvError {
    /// The text of this error.
    pub fn to_string(&self) -> (s: String)
        ensures
            self is Empty ==> s@ == "channel empty"@,
            self is Disconnected ==> s@ == "all senders dropped"@,
    {
        match self {
            TryRecvError::Empty => String::from_str("channel empty"),
            TryRecvError::Disconnected => String::from_str("all senders dropped"),
        }
    }
}

/// What a send that was asked to wait reports after one attempt.
pub enum SendPoll<T> {
    /// The send finished.
    Ready(Result<(), SendError<T>>),
    /// The queue is full: the value comes back and the caller's waker was queued.
    Pending(T),
}

/// What a blocking send reports after one attempt under the lock.
pub enum SendStep<T> {
    /// The send finished.
    Done(Result<(), SendError<T>>),
    /// The queue is full: the value comes back and the caller waits on the condition.
    Wait(T),
}

/// What a receive that was asked to wait reports after one attempt.
pub enum RecvPoll<T> {
    /// The receive finished: a value, or `None` when every sender is gone.
    Ready(Option<T>),
    /// Nothing yet: the caller's waker was stored.
    Pending,
}

/// What a blocking receive reports after one attempt under the lock.
pub enum RecvStep<T> {
    /// The receive finished: a value, or `None` when every sender is gone.
    Done(Option<T>),
    /// Nothing yet: the caller waits on the condition.
    Wait,
}

/// Who must be woken after an operation: these wakers, and all threads
/// waiting on the channel's condition when `broadcast` holds.
pub struct Notify<W> {
    pub wakers: Vec<W>,
    pub broadcast: bool,
}

/// The abstract state of a channel.
#[verifier::ext_equal]
pub struct ChannelView<T, W> {
    /// The values sent and not yet received, oldest first.
    pub queue: Seq<T>,
    /// The largest number of queued values; `None` for an unbounded channel.
    pub capacity: Option<usize>,
    /// The number of live senders.
    pub sender_count: nat,
    /// Whether the receiving side is still open.
    pub receiver_alive: bool,
    /// The waker of a receiver waiting for a value.
    pub recv_waker: Option<W>,
    /// The wakers of senders waiting for room, oldest first.
    pub send_wakers: Seq<W>,
}

/// One transition of a channel: the state after it, what it returns, the
/// wakers it wakes and whether it signals the condition.
#[verifier::ext_equal]
pub struct Transition<T, W, R> {
    pub next: ChannelView<T, W>,
    pub output: R,
    pub woken: Seq<W>,
    pub broadcast: bool,
}

/// The wakers held in an optional slot, as a sequence.
pub open spec fn slot_seq<W>(w: Option<W>) -> Seq<W> {
    match w {
        Some(x) => seq![x],
        None => Seq::empty(),
    }
}

impl<T, W> ChannelView<T, W> {
    /// The state of a new channel: one sender, an open receiver, nothing queued.
    pub open spec fn initial(capacity: Option<usize>) -> Self {
        ChannelView {
            queue: Seq::empty(),
            capacity,
            sender_count: 1,
            receiver_alive: true,
            recv_waker: None,
            send_wakers: Seq::empty(),
        }
    }

    /// The channel's invariant: a bounded queue never exceeds its capacity,
    /// and only a bounded channel has senders waiting for room.
    pub open spec fn wf(self) -> bool {
        &&& self.capacity matches Some(c) ==> self.queue.len() <= c
        &&& self.capacity is None ==> self.send_wakers.len() == 0
    }

    /// Whether the queue has reached its capacity.
    pub open spec fn is_full(self) -> bool {
        self.capacity matches Some(c) && self.queue.len() >= c
    }

    /// The transition that makes no change and wakes nobody.
    pub open spec fn stay<R>(self, output: R) -> Transition<T, W, R> {
        Transition { next: self, output, woken: Seq::empty(), broadcast: false }
    }

    /// Appending a value: the waiting receiver is woken and the condition signalled.
    pub open spec fn enqueue<R>(self, value: T, output: R) -> Transition<T, W, R> {
        Transition {
            next: ChannelView { queue: self.queue.push(value), recv_waker: None, ..self },
            output,
            woken: slot_seq(self.recv_waker),
            broadcast: true,
        }
    }

    /// Taking the oldest value: the oldest waiting sender is woken and the
    /// condition signalled.
    pub open spec fn dequeue<R>(self, output: R) -> Transition<T, W, R> {
        Transition {
            next: ChannelView {
                queue: self.queue.drop_first(),
                send_wakers: if self.send_wakers.len() > 0 {
                    self.send_wakers.drop_first()
                } else {
                    self.send_wakers
                },
                ..self
            },
            output,
            woken: if self.send_wakers.len() > 0 {
                seq![self.send_wakers[0]]
            } else {
                Seq::empty()
            },
            broadcast: true,
        }
    }

    /// A send that does not wait.
    pub open spec fn try_send(self, value: T) -> Transition<T, W, Result<(), TrySendError<T>>> {
        if !self.receiver_alive {
            self.stay(Err(TrySendError::Disconnected(value)))
        } else if self.is_full() {
            self.stay(Err(TrySendError::Full(value)))
        } else {
            self.enqueue(value, Ok(()))
        }
    }

    /// One attempt of an asynchronous send; on a full queue the waker is queued.
    pub open spec fn poll_send(self, value: T, waker: W) -> Transition<T, W, SendPoll<T>> {
        if !self.receiver_alive {
            self.stay(SendPoll::Ready(Err(SendError(value))))
        } else if self.is_full() {
            Transition {
                next: ChannelView { send_wakers: self.send_wakers.push(waker), ..self },
                output: SendPoll::Pending(value),
                woken: Seq::empty(),
                broadcast: false,
            }
        } else {
            self.enqueue(value, SendPoll::Ready(Ok(())))
        }
    }

    /// One attempt of a blocking send.
    pub open spec fn blocking_send_step(self, value: T) -> Transition<T, W, SendStep<T>> {
        if !self.receiver_alive {
            self.stay(SendStep::Done(Err(SendError(value))))
        } else if self.is_full() {
            self.stay(SendStep::Wait(value))
        } else {
            self.enqueue(value, SendStep::Done(Ok(())))
        }
    }

    /// A send on an unbounded channel.
    pub open spec fn send_unbounded(self, value: T) -> Transition<T, W, Result<(), SendError<T>>> {
        if !self.receiver_alive {
            self.stay(Err(SendError(value)))
        } else {
            self.enqueue(value, Ok(()))
        }
    }

    /// A receive that does not wait.
    pub open spec fn try_recv(self) -> Transition<T, W, Result<T, TryRecvError>> {
        if self.queue.len() > 0 {
            self.dequeue(Ok(self.queue[0]))
        } else if self.sender_count == 0 {
            self.stay(Err(TryRecvError::Disconnected))
        } else {
            self.stay(Err(TryRecvError::Empty))
        }
    }

    /// One attempt of an asynchronous receive; with nothing to take the waker is stored.
    pub open spec fn poll_recv(self, waker: W) -> Transition<T, W, RecvPoll<T>> {
        if self.queue.len() > 0 {
            self.dequeue(RecvPoll::Ready(Some(self.queue[0])))
        } else if self.sender_count == 0 {
            self.stay(RecvPoll::Ready(None))
        } else {
            Transition {
                next: ChannelView { recv_waker: Some(waker), ..self },
                output: RecvPoll::Pending,
                woken: Seq::empty(),
                broadcast: false,
            }
        }
    }

    /// One attempt of a blocking receive.
    pub open spec fn blocking_recv_step(self) -> Transition<T, W, RecvStep<T>> {
        if self.queue.len() > 0 {
            self.dequeue(RecvStep::Done(Some(self.queue[0])))
        } else if self.sender_count == 0 {
            self.stay(RecvStep::Done(None))
        } else {
            self.stay(RecvStep::Wait)
        }
    }

    /// Closing the receiving side: every waiting sender is woken.
    pub open spec fn close(self) -> Transition<T, W, ()> {
        Transition {
            next: ChannelView { receiver_alive: false, send_wakers: Seq::empty(), ..self },
            output: (),
            woken: self.send_wakers,
            broadcast: true,
        }
    }

    /// A new sender joins.
    pub open spec fn add_sender(self) -> Transition<T, W, ()> {
        Transition {
            next: ChannelView { sender_count: self.sender_count + 1, ..self },
            output: (),
            woken: Seq::empty(),
            broadcast: false,
        }
    }

    /// A sender leaves; when it was the last, the waiting receiver is woken.
    pub open spec fn drop_sender(self) -> Transition<T, W, ()> {
        let count = (self.sender_count - 1) as nat;
        if count == 0 {
            Transition {
                next: ChannelView { sender_count: count, recv_waker: None, ..self },
                output: (),
                woken: slot_seq(self.recv_waker),
                broadcast: true,
            }
        } else {
            Transition {
                next: ChannelView { sender_count: count, ..self },
                output: (),
                woken: Seq::empty(),
                broadcast: false,
            }
        }
    }
}

/// The fields of a channel's state, whose operations keep the view well formed.
struct ChannelCore<T, W> {
    queue: VecDeque<T>,
    capacity: Option<usize>,
    sender_count: usize,
    receiver_alive: bool,
    recv_waker: Option<W>,
    send_wakers: VecDeque<W>,
}

impl<T, W> View for ChannelCore<T, W> {
    type V = ChannelView<T, W>;

    closed spec fn view(&self) -> ChannelView<T, W> {
        ChannelView {
            queue: self.queue@,
            capacity: self.capacity,
            sender_count: self.sender_count as nat,
            receiver_alive: self.receiver_alive,
            recv_waker: self.recv_waker,
            send_wakers: self.send_wakers@,
        }
    }
}

impl<W> Notify<W> {
    /// Nobody to wake.
    pub fn none() -> (n: Notify<W>)
        ensures
            n.wakers@ == Seq::<W>::empty(),
            !n.broadcast,
    {
        Notify { wakers: Vec::new(), broadcast: false }
    }

    fn from_slot(slot: Option<W>, broadcast: bool) -> (n: Notify<W>)
        ensures
            n.wakers@ == slot_seq(slot),
            n.broadcast == broadcast,
    {
        let mut wakers = Vec::new();
        match slot {
            Some(w) => {
                wakers.push(w);
            },
            None => {},
        }
        proof {
            assert(wakers@ =~= slot_seq(slot));
        }
        Notify { wakers, broadcast }
    }
}

impl<T, W> ChannelCore<T, W> {
    /// A bounded channel holding at most `capacity` values.
    fn bounded(capacity: usize) -> (s: Self)
        ensures
            s@ == ChannelView::<T, W>::initial(Some(capacity)),
            s@.wf(),
    {
        ChannelCore {
            queue: VecDeque::new(),
            capacity: Some(capacity),
            sender_count: 1,
            receiver_alive: true,
            recv_waker: None,
            send_wakers: VecDeque::new(),
        }
    }

    /// An unbounded channel.
    fn unbounded() -> (s: Self)
        ensures
            s@ == ChannelView::<T, W>::initial(None),
            s@.wf(),
    {
        ChannelCore {
            queue: VecDeque::new(),
            capacity: None,
            sender_count: 1,
            receiver_alive: true,
            recv_waker: None,
            send_wakers: VecDeque::new(),
        }
    }

    fn is_full_exec(&self) -> (b: bool)
        ensures
            b == self@.is_full(),
    {
        match self.capacity {
            Some(c) => self.queue.len() >= c,
            None => false,
        }
    }

    fn push_value(&mut self, value: T) -> (n: Notify<W>)
        ensures
            ({
                let t = old(self)@.enqueue(value, ());
                &&& final(self)@ == t.next
                &&& n.wakers@ == t.woken
                &&& n.broadcast == t.broadcast
            }),
    {
        self.queue.push_back(value);
        let w = self.recv_waker.take();
        Notify::from_slot(w, true)
    }

    fn pop_value(&mut self) -> (r: (T, Notify<W>))
        requires
            old(self)@.queue.len() > 0,
        ensures
            ({
                let t = old(self)@.dequeue(());
                &&& final(self)@ == t.next
                &&& r.0 == old(self)@.queue[0]
                &&& r.1.wakers@ == t.woken
                &&& r.1.broadcast == t.broadcast
            }),
    {
        let v = self.queue.pop_front().unwrap();
        let w = self.send_wakers.pop_front();
        (v, Notify::from_slot(w, true))
    }

    /// A send that does not wait: `Disconnected` when the receiving side is
    /// closed, `Full` when the queue is at capacity, otherwise the value is queued.
    fn try_send(&mut self, value: T) -> (r: (Result<(), TrySendError<T>>, Notify<W>))
        requires
            old(self)@.wf(),
        ensures
            ({
                let t = old(self)@.try_send(value);
                &&& final(self)@ == t.next
                &&& r.0 == t.output
                &&& r.1.wakers@ == t.woken
                &&& r.1.broadcast == t.broadcast
            }),
            final(self)@.wf(),
    {
        if !self.receiver_alive {
            return (Err(TrySendError::Disconnected(value)), Notify::none());
        }
        if self.is_full_exec() {
            return (Err(TrySendError::Full(value)), Notify::none());
        }
        let n = self.push_value(value);
        (Ok(()), n)
    }

    /// One attempt of an asynchronous send, leaving `waker` behind when the
    /// queue is full.
    fn poll_send(&mut self, value: T, waker: W) -> (r: (SendPoll<T>, Notify<W>))
        requires
            old(self)@.wf(),
        ensures
            ({
                let t = old(self)@.poll_send(value, waker);
                &&& final(self)@ == t.next
                &&& r.0 == t.output
                &&& r.1.wakers@ == t.woken
                &&& r.1.broadcast == t.broadcast
            }),
            final(self)@.wf(),
    {
        if !self.receiver_alive {
            return (SendPoll::Ready(Err(SendError(value))), Notify::none());
        }
        if self.is_full_exec() {
            self.send_wakers.push_back(waker);
            return (SendPoll::Pending(value), Notify::none());
        }
        let n = self.push_value(value);
        (SendPoll::Ready(Ok(())), n)
    }

    /// One attempt of a blocking send.
    fn blocking_send_step(&mut self, value: T) -> (r: (SendStep<T>, Notify<W>))
        requires
            old(self)@.wf(),
        ensures
            ({
                let t = old(self)@.blocking_send_step(value);
                &&& final(self)@ == t.next
                &&& r.0 == t.output
                &&& r.1.wakers@ == t.woken
                &&& r.1.broadcast == t.broadcast
            }),
            final(self)@.wf(),
    {
        if !self.receiver_alive {
            return (SendStep::Done(Err(SendError(value))), Notify::none());
        }
        if self.is_full_exec() {
            return (SendStep::Wait(value), Notify::none());
        }
        let n = self.push_value(value);
        (SendStep::Done(Ok(())), n)
    }

    /// A send on an unbounded channel, which never waits.
    fn send_unbounded(&mut self, value: T) -> (r: (Result<(), SendError<T>>, Notify<W>))
        requires
            old(self)@.wf(),
            old(self)@.capacity is None,
        ensures
            ({
                let t = old(self)@.send_unbounded(value);
                &&& final(self)@ == t.next
                &&& r.0 == t.output
                &&& r.1.wakers@ == t.woken
                &&& r.1.broadcast == t.broadcast
            }),
            final(self)@.wf(),
    {
        if !self.receiver_alive {
            return (Err(SendError(value)), Notify::none());
        }
        let n = self.push_value(value);
        (Ok(()), n)
    }

    /// A receive that does not wait: the oldest value, else `Disconnected`
    /// when every sender is gone, else `Empty`.
    fn try_recv(&mut self) -> (r: (Result<T, TryRecvError>, Notify<W>))
        requires
            old(self)@.wf(),
        ensures
            ({
                let t = old(self)@.try_recv();
                &&& final(self)@ == t.next
                &&& r.0 == t.output
                &&& r.1.wakers@ == t.woken
                &&& r.1.broadcast == t.broadcast
            }),
            final(self)@.wf(),
    {
        if self.queue.len() > 0 {
            let (v, n) = self.pop_value();
            (Ok(v), n)
        } else if self.sender_count == 0 {
            (Err(TryRecvError::Disconnected), Notify::none())
        } else {
            (Err(TryRecvError::Empty), Notify::none())
        }
    }

    /// One attempt of an asynchronous receive, leaving `waker` behind when
    /// there is nothing to take yet.
    fn poll_recv(&mut self, waker: W) -> (r: (RecvPoll<T>, Notify<W>))
        requires
            old(self)@.wf(),
        ensures
            ({
                let t = old(self)@.poll_recv(waker);
                &&& final(self)@ == t.next
                &&& r.0 == t.output
                &&& r.1.wakers@ == t.woken
                &&& r.1.broadcast == t.broadcast
            }),
            final(self)@.wf(),
    {
        if self.queue.len() > 0 {
            let (v, n) = self.pop_value();
            (RecvPoll::Ready(Some(v)), n)
        } else if self.sender_count == 0 {
            (RecvPoll::Ready(None), Notify::none())
        } else {
            self.recv_waker = Some(waker);
            (RecvPoll::Pending, Notify::none())
        }
    }

    /// One attempt of a blocking receive.
    fn blocking_recv_step(&mut self) -> (r: (RecvStep<T>, Notify<W>))
        requires
            old(self)@.wf(),
        ensures
            ({
                let t = old(self)@.blocking_recv_step();
                &&& final(self)@ == t.next
                &&& r.0 == t.output
                &&& r.1.wakers@ == t.woken
                &&& r.1.broadcast == t.broadcast
            }),
            final(self)@.wf(),
    {
        if self.queue.len() > 0 {
            let (v, n) = self.pop_value();
            (RecvStep::Done(Some(v)), n)
        } else if self.sender_count == 0 {
            (RecvStep::Done(None), Notify::none())
        } else {
            (RecvStep::Wait, Notify::none())
        }
    }

    /// Closes the receiving side: later sends fail and waiting senders are woken.
    fn close(&mut self) -> (n: Notify<W>)
        requires
            old(self)@.wf(),
        ensures
            ({
                let t = old(self)@.close();
                &&& final(self)@ == t.next
                &&& n.wakers@ == t.woken
                &&& n.broadcast == t.broadcast
            }),
            final(self)@.wf(),
    {
        self.receiver_alive = false;
        let mut wakers: Vec<W> = Vec::new();
        let ghost pending = self.send_wakers@;
        let ghost before = self@;
        while self.send_wakers.len() > 0
            invariant
                pending == wakers@ + self.send_wakers@,
                self@ == (ChannelView { send_wakers: self.send_wakers@, ..before }),
            decreases self.send_wakers@.len(),
        {
            let w = self.send_wakers.pop_front().unwrap();
            wakers.push(w);
            proof {
                assert(pending =~= wakers@ + self.send_wakers@);
            }
        }
        proof {
            assert(wakers@ =~= pending);
        }
        Notify { wakers, broadcast: true }
    }

    /// Registers one more sender.
    fn add_sender(&mut self)
        requires
            old(self)@.sender_count < usize::MAX,
        ensures
            final(self)@ == old(self)@.add_sender().next,
            old(self)@.wf() ==> final(self)@.wf(),
    {
        self.sender_count = self.sender_count + 1;
    }

    /// Removes one sender; the last one leaving wakes the receiver.
    fn drop_sender(&mut self) -> (n: Notify<W>)
        requires
            old(self)@.sender_count > 0,
        ensures
            ({
                let t = old(self)@.drop_sender();
                &&& final(self)@ == t.next
                &&& n.wakers@ == t.woken
                &&& n.broadcast == t.broadcast
            }),
            old(self)@.wf() ==> final(self)@.wf(),
    {
        self.sender_count = self.sender_count - 1;
        if self.sender_count == 0 {
            let w = self.recv_waker.take();
            Notify::from_slot(w, true)
        } else {
            Notify::none()
        }
    }

    /// Whether the receiving side is closed.
    fn is_closed(&self) -> (b: bool)
        ensures
            b == !self@.receiver_alive,
    {
        !self.receiver_alive
    }

    /// The number of queued values.
    fn len(&self) -> (n: usize)
        ensures
            n == self@.queue.len(),
    {
        self.queue.len()
    }

    /// Whether nothing is queued.
    fn is_empty(&self) -> (b: bool)
        ensures
            b == (self@.queue.len() == 0),
    {
        self.len() == 0
    }

    /// The capacity limit, `None` for an unbounded channel.
    fn capacity(&self) -> (c: Option<usize>)
        ensures
            c == self@.capacity,
    {
        self.capacity
    }

    /// The number of live senders.
    fn sender_count(&self) -> (n: usize)
        ensures
            n == self@.sender_count,
    {
        self.sender_count
    }
}

/// The shared state of a multi-producer, single-consumer channel, bounded or
/// not. `W` is the type of the wakers that waiting tasks leave behind.
pub struct ChannelState<T, W> {
    core: ChannelCore<T, W>,
}

impl<T, W> View for ChannelState<T, W> {
    type V = ChannelView<T, W>;

    closed spec fn view(&self) -> ChannelView<T, W> {
        self.core@
    }
}

impl<T, W> ChannelState<T, W> {
    /// The channel's view is always well formed.
    #[verifier::type_invariant]
    spec fn well_formed(self) -> bool {
        self.core@.wf()
    }

    /// A bounded channel holding at most `capacity` values.
    pub fn bounded(capacity: usize) -> (s: Self)
        ensures
            s@ == ChannelView::<T, W>::initial(Some(capacity)),
            s@.wf(),
    {
        ChannelState { core: ChannelCore::bounded(capacity) }
    }

    /// An unbounded channel.
    pub fn unbounded() -> (s: Self)
        ensures
            s@ == ChannelView::<T, W>::initial(None),
            s@.wf(),
    {
        ChannelState { core: ChannelCore::unbounded() }
    }

    /// Takes the fields out, leaving an empty unbounded channel in their place.
    fn take_core(&mut self) -> (c: ChannelCore<T, W>)
        ensures
            c@ == old(self)@,
            c@.wf(),
    {
        proof {
            use_type_invariant(&*self);
        }
        let mut c = ChannelCore::unbounded();
        std::mem::swap(&mut c, &mut self.core);
        c
    }

    /// Puts well-formed fields back.
    fn put_core(&mut self, c: ChannelCore<T, W>)
        requires
            c@.wf(),
        ensures
            final(self)@ == c@,
    {
        let mut c = c;
        std::mem::swap(&mut c, &mut self.core);
    }

    /// A send that does not wait: `Disconnected` when the receiving side is
    /// closed, `Full` when the queue is at capacity, otherwise the value is queued.
    pub fn try_send(&mut self, value: T) -> (r: (Result<(), TrySendError<T>>, Notify<W>))
        ensures
            ({
                let t = old(self)@.try_send(value);
                &&& final(self)@ == t.next
                &&& r.0 == t.output
                &&& r.1.wakers@ == t.woken
                &&& r.1.broadcast == t.broadcast
            }),
            final(self)@.wf(),
    {
        let mut c = self.take_core();
        let r = c.try_send(value);
        self.put_core(c);
        r
    }

    /// One attempt of an asynchronous send, leaving `waker` behind when the
    /// queue is full.
    pub fn poll_send(&mut self, value: T, waker: W) -> (r: (SendPoll<T>, Notify<W>))
        ensures
            ({
                let t = old(self)@.poll_send(value, waker);
                &&& final(self)@ == t.next
                &&& r.0 == t.output
                &&& r.1.wakers@ == t.woken
                &&& r.1.broadcast == t.broadcast
            }),
            final(self)@.wf(),
    {
        let mut c = self.take_core();
        let r = c.poll_send(value, waker);
        self.put_core(c);
        r
    }

    /// One attempt of a blocking send.
    pub fn blocking_send_step(&mut self, value: T) -> (r: (SendStep<T>, Notify<W>))
        ensures
            ({
                let t = old(self)@.blocking_send_step(value);
                &&& final(self)@ == t.next
                &&& r.0 == t.output
                &&& r.1.wakers@ == t.woken
                &&& r.1.broadcast == t.broadcast
            }),
            final(self)@.wf(),
    {
        let mut c = self.take_core();
        let r = c.blocking_send_step(value);
        self.put_core(c);
        r
    }

    /// A send on an unbounded channel, which never waits.
    pub fn send_unbounded(&mut self, value: T) -> (r: (Result<(), SendError<T>>, Notify<W>))
        requires
            old(self)@.capacity is None,
        ensures
            ({
                let t = old(self)@.send_unbounded(value);
                &&& final(self)@ == t.next
                &&& r.0 == t.output
                &&& r.1.wakers@ == t.woken
                &&& r.1.broadcast == t.broadcast
            }),
            final(self)@.wf(),
    {
        let mut c = self.take_core();
        let r = c.send_unbounded(value);
        self.put_core(c);
        r
    }

    /// A receive that does not wait: the oldest value, else `Disconnected`
    /// when every sender is gone, else `Empty`.
    pub fn try_recv(&mut self) -> (r: (Result<T, TryRecvError>, Notify<W>))
        ensures
            ({
                let t = old(self)@.try_recv();
                &&& final(self)@ == t.next
                &&& r.0 == t.output
                &&& r.1.wakers@ == t.woken
                &&& r.1.broadcast == t.broadcast
            }),
            final(self)@.wf(),
    {
        let mut c = self.take_core();
        let r = c.try_recv();
        self.put_core(c);
        r
    }

    /// One attempt of an asynchronous receive, leaving `waker` behind when
    /// there is nothing to take yet.
    pub fn poll_recv(&mut self, waker: W) -> (r: (RecvPoll<T>, Notify<W>))
        ensures
            ({
                let t = old(self)@.poll_recv(waker);
                &&& final(self)@ == t.next
                &&& r.0 == t.output
                &&& r.1.wakers@ == t.woken
                &&& r.1.broadcast == t.broadcast
            }),
            final(self)@.wf(),
    {
        let mut c = self.take_core();
        let r = c.poll_recv(waker);
        self.put_core(c);
        r
    }

    /// One attempt of a blocking receive.
    pub fn blocking_recv_step(&mut self) -> (r: (RecvStep<T>, Notify<W>))
        ensures
            ({
                let t = old(self)@.blocking_recv_step();
                &&& final(self)@ == t.next
                &&& r.0 == t.output
                &&& r.1.wakers@ == t.woken
                &&& r.1.broadcast == t.broadcast
            }),
            final(self)@.wf(),
    {
        let mut c = self.take_core();
        let r = c.blocking_recv_step();
        self.put_core(c);
        r
    }

    /// Closes the receiving side: later sends fail and waiting senders are woken.
    pub fn close(&mut self) -> (n: Notify<W>)
        ensures
            ({
                let t = old(self)@.close();
                &&& final(self)@ == t.next
                &&& n.wakers@ == t.woken
                &&& n.broadcast == t.broadcast
            }),
            final(self)@.wf(),
    {
        let mut c = self.take_core();
        let n = c.close();
        self.put_core(c);
        n
    }

    /// Registers one more sender.
    pub fn add_sender(&mut self)
        requires
            old(self)@.sender_count < usize::MAX,
        ensures
            final(self)@ == old(self)@.add_sender().next,
            final(self)@.wf(),
    {
        let mut c = self.take_core();
        c.add_sender();
        self.put_core(c);
    }

    /// Removes one sender; the last one leaving wakes the receiver.
    pub fn drop_sender(&mut self) -> (n: Notify<W>)
        requires
            old(self)@.sender_count > 0,
        ensures
            ({
                let t = old(self)@.drop_sender();
                &&& final(self)@ == t.next
                &&& n.wakers@ == t.woken
                &&& n.broadcast == t.broadcast
            }),
            final(self)@.wf(),
    {
        let mut c = self.take_core();
        let n = c.drop_sender();
        self.put_core(c);
        n
    }

    /// Whether the receiving side is closed.
    pub fn is_closed(&self) -> (b: bool)
        ensures
            b == !self@.receiver_alive,
    {
        self.core.is_closed()
    }

    /// The number of queued values.
    pub fn len(&self) -> (n: usize)
        ensures
            n == self@.queue.len(),
    {
        self.core.len()
    }

    /// Whether nothing is queued.
    pub fn is_empty(&self) -> (b: bool)
        ensures
            b == (self@.queue.len() == 0),
    {
        self.core.is_empty()
    }

    /// The capacity limit, `None` for an unbounded channel.
    pub fn capacity(&self) -> (c: Option<usize>)
        ensures
            c == self@.capacity,
    {
        self.core.capacity()
    }

    /// The number of live senders.
    pub fn sender_count(&self) -> (n: usize)
        ensures
            n == self@.sender_count,
    {
        self.core.sender_count()
    }
}

/// The state after sending each value of `xs` in turn without waiting.
pub open spec fn send_all<T, W>(v: ChannelView<T, W>, xs: Seq<T>) -> ChannelView<T, W>
    decreases xs.len(),
{
    if xs.len() == 0 {
        v
    } else {
        send_all(v.try_send(xs[0]).next, xs.drop_first())
    }
}

/// The results of `n` receives in turn without waiting, and the state after them.
pub open spec fn recv_n<T, W>(v: ChannelView<T, W>, n: nat) -> (ChannelView<T, W>, Seq<
    Result<T, TryRecvError>,
>)
    decreases n,
{
    if n == 0 {
        (v, Seq::empty())
    } else {
        let t = v.try_recv();
        let rest = recv_n(t.next, (n - 1) as nat);
        (rest.0, seq![t.output].add(rest.1))
    }
}

/// Each value wrapped as a successful receive.
pub open spec fn received<T>(xs: Seq<T>) -> Seq<Result<T, TryRecvError>> {
    xs.map_values(|x: T| Ok::<T, TryRecvError>(x))
}

/// On an open channel with room for all of them, sending values one after
/// another appends them to the queue in order, and none is refused.
pub proof fn lemma_send_all_appends<T, W>(v: ChannelView<T, W>, xs: Seq<T>)
    requires
        v.wf(),
        v.receiver_alive,
        v.capacity matches Some(c) ==> v.queue.len() + xs.len() <= c,
    ensures
        send_all(v, xs).queue == v.queue + xs,
        send_all(v, xs).receiver_alive,
        send_all(v, xs).capacity == v.capacity,
        send_all(v, xs).sender_count == v.sender_count,
        send_all(v, xs).wf(),
    decreases xs.len(),
{
    if xs.len() > 0 {
        let t = v.try_send(xs[0]);
        assert(t.output is Ok);
        lemma_send_all_appends(t.next, xs.drop_first());
        assert(v.queue.push(xs[0]) + xs.drop_first() =~= v.queue + xs);
    } else {
        assert(v.queue + xs =~= v.queue);
    }
}

/// Receiving as many times as values are queued yields exactly the queued
/// values, oldest first, and leaves the queue empty.
pub proof fn lemma_recv_n_drains<T, W>(v: ChannelView<T, W>)
    ensures
        recv_n(v, v.queue.len()).1 == received(v.queue),
        recv_n(v, v.queue.len()).0.queue.len() == 0,
        recv_n(v, v.queue.len()).0.receiver_alive == v.receiver_alive,
        recv_n(v, v.queue.len()).0.sender_count == v.sender_count,
    decreases v.queue.len(),
{
    if v.queue.len() > 0 {
        let t = v.try_recv();
        lemma_recv_n_drains(t.next);
        assert(t.next.queue =~= v.queue.drop_first());
        assert(received(v.queue) =~= seq![t.output].add(received(v.queue.drop_first())));
    } else {
        assert(received(v.queue) =~= Seq::empty());
    }
}

/// Values come out of a channel in the order they went in, after those
/// already queued, and none is lost: on an open channel with room for them,
/// sending `xs` and then receiving once per queued value returns the earlier
/// queue followed by `xs`.
pub proof fn lemma_fifo<T, W>(v: ChannelView<T, W>, xs: Seq<T>)
    requires
        v.wf(),
        v.receiver_alive,
        v.capacity matches Some(c) ==> v.queue.len() + xs.len() <= c,
    ensures
        recv_n(send_all(v, xs), v.queue.len() + xs.len()).1 == received(v.queue + xs),
{
    lemma_send_all_appends(v, xs);
    lemma_recv_n_drains(send_all(v, xs));
}

/// Once the receiving side is closed, every kind of send is refused, hands
/// the value back and leaves the channel as it was.
pub proof fn lemma_send_after_close<T, W>(v: ChannelView<T, W>, x: T, w: W)
    ensures
        ({
            let c = v.close().next;
            &&& c.try_send(x).output == Err::<(), TrySendError<T>>(TrySendError::Disconnected(x))
            &&& c.try_send(x).next == c
            &&& c.send_unbounded(x).output == Err::<(), SendError<T>>(SendError(x))
            &&& c.send_unbounded(x).next == c
            &&& c.blocking_send_step(x).output == SendStep::Done(Err(SendError(x)))
            &&& c.blocking_send_step(x).next == c
            &&& c.poll_send(x, w).output == SendPoll::Ready(Err(SendError(x)))
            &&& c.poll_send(x, w).next == c
        }),
{
}

/// When the last sender leaves a channel with nothing queued, every kind of
/// receive reports that the senders are gone.
pub proof fn lemma_recv_after_last_sender<T, W>(v: ChannelView<T, W>, w: W)
    requires
        v.sender_count == 1,
        v.queue.len() == 0,
    ensures
        ({
            let d = v.drop_sender().next;
            &&& d.try_recv().output == Err::<T, TryRecvError>(TryRecvError::Disconnected)
            &&& d.blocking_recv_step().output == RecvStep::<T>::Done(None)
            &&& d.poll_recv(w).output == RecvPoll::<T>::Ready(None)
        }),
{
}

/// Adding a sender and then dropping one leaves the channel as it was and wakes nobody.
pub proof fn lemma_add_then_drop_sender<T, W>(v: ChannelView<T, W>)
    requires
        v.sender_count > 0,
    ensures
        v.add_sender().next.drop_sender().next == v,
        v.add_sender().next.drop_sender().woken.len() == 0,
        !v.add_sender().next.drop_sender().broadcast,
{
}

/// A send that does not wait is refused as full exactly when the receiver is
/// open and the bounded queue is at its capacity, and an unbounded channel is never full.
pub proof fn lemma_full_iff<T, W>(v: ChannelView<T, W>, x: T)
    requires
        v.wf(),
    ensures
        (v.try_send(x).output matches Err(TrySendError::Full(_))) <==> (v.receiver_alive
            && v.capacity is Some && v.queue.len() == v.capacity->0),
        v.capacity is None ==> !(v.try_send(x).output matches Err(TrySendError::Full(_))),
{
}

/// Nobody is left waiting unnoticed: a value that goes in wakes the waiting
/// receiver, a value that comes out wakes the oldest waiting sender, and
/// closing wakes every waiting sender; each of these also signals the condition.
pub proof fn lemma_wakeups<T, W>(v: ChannelView<T, W>, x: T, r: W)
    requires
        v.wf(),
    ensures
        v.recv_waker == Some(r) && v.try_send(x).output is Ok ==> v.try_send(x).woken == seq![r]
            && v.try_send(x).broadcast && v.try_send(x).next.recv_waker is None,
        v.queue.len() > 0 && v.send_wakers.len() > 0 ==> v.try_recv().woken == seq![
            v.send_wakers[0],
        ] && v.try_recv().next.send_wakers == v.send_wakers.drop_first(),
        v.close().woken == v.send_wakers && v.close().next.send_wakers.len() == 0,
{
}

/// Whether the queue has room for one more value: the channel is unbounded,
/// or holds fewer values than its capacity.
pub open spec fn has_room<T, W>(v: ChannelView<T, W>) -> bool {
    match v.capacity {
        Some(c) => v.queue.len() < c,
        None => true,
    }
}

/// On an open channel with room, every kind of send goes through at once and
/// appends the value at the back of the queue; a send waits only when the
/// channel is bounded and at its capacity, and then queues nothing.
pub proof fn lemma_send_with_room<T, W>(v: ChannelView<T, W>, x: T, w: W)
    requires
        v.wf(),
    ensures
        v.receiver_alive && has_room(v) ==> {
            &&& v.try_send(x).output == Ok::<(), TrySendError<T>>(())
            &&& v.try_send(x).next.queue == v.queue.push(x)
            &&& v.poll_send(x, w).output == SendPoll::<T>::Ready(Ok(()))
            &&& v.poll_send(x, w).next.queue == v.queue.push(x)
            &&& v.blocking_send_step(x).output == SendStep::<T>::Done(Ok(()))
            &&& v.blocking_send_step(x).next.queue == v.queue.push(x)
        },
        v.poll_send(x, w).output is Pending ==> v.receiver_alive && !has_room(v)
            && v.capacity is Some && v.poll_send(x, w).next.queue == v.queue,
        v.blocking_send_step(x).output is Wait ==> v.receiver_alive && !has_room(v)
            && v.blocking_send_step(x).next.queue == v.queue,
        v.capacity is None && v.receiver_alive ==> v.send_unbounded(x).output == Ok::<
            (),
            SendError<T>,
        >(()) && v.send_unbounded(x).next.queue == v.queue.push(x),
{
}

/// While values are queued, every kind of receive hands out the oldest and
/// removes it, whatever the number of senders; a receive reports that the
/// senders are gone only when the queue is empty and no sender is left.
pub proof fn lemma_recv_takes_oldest<T, W>(v: ChannelView<T, W>, w: W)
    ensures
        v.queue.len() > 0 ==> {
            &&& v.try_recv().output == Ok::<T, TryRecvError>(v.queue[0])
            &&& v.try_recv().next.queue == v.queue.drop_first()
            &&& v.poll_recv(w).output == RecvPoll::Ready(Some(v.queue[0]))
            &&& v.poll_recv(w).next.queue == v.queue.drop_first()
            &&& v.blocking_recv_step().output == RecvStep::Done(Some(v.queue[0]))
            &&& v.blocking_recv_step().next.queue == v.queue.drop_first()
        },
        v.try_recv().output == Err::<T, TryRecvError>(TryRecvError::Disconnected) ==> v.queue.len()
            == 0 && v.sender_count == 0,
        v.poll_recv(w).output == RecvPoll::<T>::Ready(None) ==> v.queue.len() == 0
            && v.sender_count == 0,
        v.blocking_recv_step().output == RecvStep::<T>::Done(None) ==> v.queue.len() == 0
            && v.sender_count == 0,
        v.queue.len() == 0 && v.sender_count > 0 ==> v.blocking_recv_step().output is Wait
            && v.blocking_recv_step().next == v && v.poll_recv(w).output is Pending
            && v.try_recv().output == Err::<T, TryRecvError>(TryRecvError::Empty),
{
}

/// Closing the receiving side only stops later sends: the queued values, the
/// senders and the capacity stay, and each queued value can still be received.
pub proof fn lemma_close_keeps_queue<T, W>(v: ChannelView<T, W>)
    ensures
        v.close().next.queue == v.queue,
        v.close().next.sender_count == v.sender_count,
        v.close().next.capacity == v.capacity,
        !v.close().next.receiver_alive,
        v.queue.len() > 0 ==> v.close().next.try_recv().output == Ok::<T, TryRecvError>(
            v.queue[0],
        ),
{
}

} // verus!
