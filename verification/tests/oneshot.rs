use ohos_ffrt::channel;
use ohos_ffrt::signal::oneshot::{OneshotPoll, OneshotState, OneshotStep, RecvError, SendError};

fn blocking_recv(ch: &mut OneshotState<i32, ()>) -> Result<i32, RecvError> {
    match ch.blocking_recv_step() {
        OneshotStep::Done(r) => r,
        OneshotStep::Wait => panic!("nothing would ever arrive"),
    }
}

#[test]
fn test_send_recv() {
    let mut ch: OneshotState<i32, ()> = OneshotState::new();
    ch.send(42).0.unwrap();
    assert_eq!(blocking_recv(&mut ch).unwrap(), 42);
}

#[test]
fn test_sender_dropped() {
    let mut ch: OneshotState<i32, ()> = OneshotState::new();
    ch.drop_sender();
    assert!(blocking_recv(&mut ch).is_err());
}

#[test]
fn test_receiver_dropped() {
    let mut ch: OneshotState<i32, ()> = OneshotState::new();
    ch.drop_receiver();
    assert!(ch.send(42).0.is_err());
}

#[test]
fn value_is_taken_once() {
    let mut ch: OneshotState<i32, ()> = OneshotState::new();
    assert_eq!(ch.try_recv(), Err(RecvError));
    ch.send(7).0.unwrap();
    assert_eq!(ch.try_recv(), Ok(7));
    assert_eq!(ch.try_recv(), Err(RecvError));
}

#[test]
fn refused_send_returns_value() {
    let mut ch: OneshotState<String, ()> = OneshotState::new();
    ch.close();
    assert!(ch.is_closed());
    assert_eq!(ch.send("v".to_string()).0, Err(SendError("v".to_string())));
}

#[test]
fn waiting_receiver_is_woken_by_send() {
    let mut ch: OneshotState<i32, &str> = OneshotState::new();
    assert!(matches!(ch.poll_recv("rx"), OneshotPoll::Pending));
    let (r, n) = ch.send(3);
    assert_eq!(r, Ok(()));
    assert_eq!(n.waker, Some("rx"));
    assert!(n.broadcast);
    assert!(matches!(ch.poll_recv("rx"), OneshotPoll::Ready(Ok(3))));
}

#[test]
fn waiting_sender_is_woken_when_receiver_goes() {
    let mut ch: OneshotState<i32, &str> = OneshotState::new();
    assert!(matches!(ch.poll_closed("tx"), OneshotPoll::Pending));
    let n = ch.drop_receiver();
    assert_eq!(n.waker, Some("tx"));
    assert!(matches!(ch.poll_closed("tx"), OneshotPoll::Ready(())));
}

#[test]
fn dropped_sender_wakes_receiver() {
    let mut ch: OneshotState<i32, &str> = OneshotState::new();
    assert!(matches!(ch.poll_recv("rx"), OneshotPoll::Pending));
    let n = ch.drop_sender();
    assert_eq!(n.waker, Some("rx"));
    assert!(matches!(ch.poll_recv("rx"), OneshotPoll::Ready(Err(RecvError))));
}

#[test]
fn oneshot_error_texts() {
    assert_eq!(RecvError.to_string(), "channel closed");
    assert_eq!(SendError(1).to_string(), "receiver dropped");
    assert_eq!(channel::RecvError::Closed.to_string(), "channel closed");
    assert_eq!(channel::SendError(1).to_string(), "receiver has been dropped");
    assert_eq!(channel::RecvError::from_recv(RecvError), channel::RecvError::Closed);
    assert_eq!(channel::SendError::from_send(SendError(9)).0, 9);
}

#[test]
fn closing_receiver_wakes_waiting_sender() {
    let mut ch: OneshotState<i32, &str> = OneshotState::new();
    assert!(matches!(ch.poll_closed("tx"), OneshotPoll::Pending));
    let n = ch.close();
    assert_eq!(n.waker, Some("tx"));
    assert!(n.broadcast);
    assert!(matches!(ch.poll_closed("tx"), OneshotPoll::Ready(())));
}
