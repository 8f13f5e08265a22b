use ohos_ffrt::signal::mpsc::{
    ChannelState, RecvPoll, RecvStep, SendError, SendPoll, SendStep, TryRecvError, TrySendError,
};

#[test]
fn test_unbounded_send_recv() {
    let mut ch: ChannelState<i32, ()> = ChannelState::unbounded();
    ch.send_unbounded(42).0.unwrap();
    assert_eq!(ch.try_recv().0.unwrap(), 42);
}

#[test]
fn test_bounded_send_recv() {
    let mut ch: ChannelState<i32, ()> = ChannelState::bounded(10);
    ch.try_send(42).0.unwrap();
    assert_eq!(ch.try_recv().0.unwrap(), 42);
}

#[test]
fn test_bounded_full() {
    let mut ch: ChannelState<i32, ()> = ChannelState::bounded(1);
    ch.try_send(42).0.unwrap();
    assert!(matches!(ch.try_send(43).0, Err(TrySendError::Full(_))));
}

#[test]
fn test_clone_sender() {
    let mut ch: ChannelState<i32, ()> = ChannelState::unbounded();
    ch.add_sender();

    ch.send_unbounded(1).0.unwrap();
    ch.send_unbounded(2).0.unwrap();

    assert_eq!(ch.try_recv().0.unwrap(), 1);
    assert_eq!(ch.try_recv().0.unwrap(), 2);
}

#[test]
fn test_all_senders_dropped() {
    let mut ch: ChannelState<i32, ()> = ChannelState::unbounded();
    ch.drop_sender();
    assert!(ch.try_recv().0.is_err());
}

#[test]
fn fifo_order_is_kept() {
    let mut ch: ChannelState<u32, ()> = ChannelState::bounded(5);
    for v in [7u32, 3, 9, 1, 4] {
        assert!(ch.try_send(v).0.is_ok());
    }
    assert_eq!(ch.len(), 5);
    let mut got = Vec::new();
    while let Ok(v) = ch.try_recv().0 {
        got.push(v);
    }
    assert_eq!(got, vec![7, 3, 9, 1, 4]);
    assert!(ch.is_empty());
}

#[test]
fn empty_with_live_sender_is_empty_error() {
    let mut ch: ChannelState<u8, ()> = ChannelState::unbounded();
    assert_eq!(ch.try_recv().0, Err(TryRecvError::Empty));
}

#[test]
fn queued_values_survive_last_sender() {
    let mut ch: ChannelState<u8, ()> = ChannelState::unbounded();
    ch.send_unbounded(5).0.unwrap();
    ch.drop_sender();
    assert_eq!(ch.try_recv().0, Ok(5));
    assert_eq!(ch.try_recv().0, Err(TryRecvError::Disconnected));
}

#[test]
fn send_after_close_returns_value() {
    let mut ch: ChannelState<u8, &str> = ChannelState::bounded(2);
    let n = ch.close();
    assert!(n.broadcast);
    assert!(ch.is_closed());
    assert_eq!(ch.try_send(1).0, Err(TrySendError::Disconnected(1)));
    match ch.poll_send(2, "w").0 {
        SendPoll::Ready(Err(SendError(v))) => assert_eq!(v, 2),
        _ => panic!("send after close must fail"),
    }
    match ch.blocking_send_step(3).0 {
        SendStep::Done(Err(SendError(v))) => assert_eq!(v, 3),
        _ => panic!("send after close must fail"),
    }
    let mut un: ChannelState<u8, ()> = ChannelState::unbounded();
    un.close();
    assert_eq!(un.send_unbounded(4).0, Err(SendError(4)));
}

#[test]
fn full_send_parks_waker_and_receive_wakes_it() {
    let mut ch: ChannelState<u8, &str> = ChannelState::bounded(1);
    ch.try_send(1).0.unwrap();
    match ch.poll_send(2, "sender").0 {
        SendPoll::Pending(v) => assert_eq!(v, 2),
        _ => panic!("a full channel must make the send wait"),
    }
    let (r, n) = ch.try_recv();
    assert_eq!(r, Ok(1));
    assert_eq!(n.wakers, vec!["sender"]);
    assert!(n.broadcast);
    match ch.blocking_send_step(2).0 {
        SendStep::Done(Ok(())) => {},
        _ => panic!("room was made"),
    }
    match ch.blocking_send_step(3).0 {
        SendStep::Wait(v) => assert_eq!(v, 3),
        _ => panic!("the channel is full again"),
    }
}

#[test]
fn receive_parks_waker_and_send_wakes_it() {
    let mut ch: ChannelState<u8, &str> = ChannelState::unbounded();
    assert!(matches!(ch.poll_recv("receiver").0, RecvPoll::Pending));
    assert!(matches!(ch.blocking_recv_step().0, RecvStep::Wait));
    let (r, n) = ch.send_unbounded(8);
    assert_eq!(r, Ok(()));
    assert_eq!(n.wakers, vec!["receiver"]);
    match ch.poll_recv("again").0 {
        RecvPoll::Ready(Some(v)) => assert_eq!(v, 8),
        _ => panic!("a value was sent"),
    }
}

#[test]
fn last_sender_wakes_receiver() {
    let mut ch: ChannelState<u8, &str> = ChannelState::bounded(3);
    ch.add_sender();
    assert_eq!(ch.sender_count(), 2);
    ch.poll_recv("r");
    let n = ch.drop_sender();
    assert!(n.wakers.is_empty());
    assert!(!n.broadcast);
    let n = ch.drop_sender();
    assert_eq!(n.wakers, vec!["r"]);
    assert!(n.broadcast);
    assert!(matches!(ch.blocking_recv_step().0, RecvStep::Done(None)));
    assert!(matches!(ch.poll_recv("x").0, RecvPoll::Ready(None)));
}

#[test]
fn close_wakes_every_waiting_sender() {
    let mut ch: ChannelState<u8, u8> = ChannelState::bounded(0);
    ch.poll_send(1, 10);
    ch.poll_send(2, 20);
    let n = ch.close();
    assert_eq!(n.wakers, vec![10, 20]);
}

#[test]
fn capacity_and_len() {
    let mut ch: ChannelState<u8, ()> = ChannelState::bounded(4);
    assert_eq!(ch.capacity(), Some(4));
    assert_eq!(ChannelState::<u8, ()>::unbounded().capacity(), None);
    ch.try_send(1).0.unwrap();
    assert_eq!(ch.len(), 1);
    assert!(!ch.is_empty());
}

#[test]
fn zero_capacity_is_always_full() {
    let mut ch: ChannelState<u8, ()> = ChannelState::bounded(0);
    assert_eq!(ch.try_send(1).0, Err(TrySendError::Full(1)));
}

#[test]
fn mpsc_error_texts() {
    assert_eq!(SendError(1).to_string(), "receiver dropped");
    assert_eq!(ohos_ffrt::mpsc::RecvError.to_string(), "all senders dropped");
    assert_eq!(TrySendError::Full(1).to_string(), "channel full");
    assert_eq!(TrySendError::Disconnected(1).to_string(), "receiver dropped");
    assert_eq!(TryRecvError::Empty.to_string(), "channel empty");
    assert_eq!(TryRecvError::Disconnected.to_string(), "all senders dropped");
}
