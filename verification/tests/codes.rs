use ohos_ffrt::lock::{lock_status, LockError, LockMode, LockOp};
use ohos_ffrt::runtime::task_cell::{PollOutcome, TaskCell, TaskState};
use ohos_ffrt::runtime::timing::{join_timeout_step, sleep_poll, timeout_check, JoinStep, SleepPoll, YieldNow};
use ohos_ffrt::text::{eq_ignore_ascii_case, parse_u64, text_eq, IntParseError};
use ohos_ffrt::utils::{select_outcome, try_join_step, SelectResult};
use ohos_ffrt::oneshot::RecvError;
use ohos_ffrt::{FfrtQos, Qos, Runtime, RuntimeError, TaskPriority};

#[test]
fn qos_codes_round_trip() {
    for (q, c) in [
        (Qos::Inherit, -1),
        (Qos::Background, 0),
        (Qos::Utility, 1),
        (Qos::Default, 2),
        (Qos::UserInitiated, 3),
    ] {
        assert_eq!(q.code(), c);
        assert_eq!(Qos::from_code(c), q);
    }
}

#[test]
fn priority_codes_round_trip() {
    for (p, c) in [
        (TaskPriority::Immediate, 0u32),
        (TaskPriority::High, 1),
        (TaskPriority::Low, 2),
        (TaskPriority::Idle, 3),
    ] {
        assert_eq!(p.code(), c);
        assert_eq!(TaskPriority::from_code(c), p);
    }
}

#[test]
fn lock_mode_codes() {
    assert_eq!(LockMode::Normal.code(), 0);
    assert_eq!(LockMode::Recursive.code(), 2);
    assert_eq!(LockMode::from_code(0), LockMode::Normal);
    assert_eq!(LockMode::from_code(2), LockMode::Recursive);
}

#[test]
fn system_qos_codes() {
    assert_eq!(FfrtQos::UserInteractive.code(), 4);
    assert_eq!(FfrtQos::from_code(0), Some(FfrtQos::Background));
    assert_eq!(FfrtQos::from_code(5), None);
    assert_eq!(FfrtQos::from_code(-1), None);
}

#[test]
fn lock_status_messages() {
    assert!(lock_status(LockOp::Lock, 0).is_ok());
    let LockError::InnerError(m) = lock_status(LockOp::Lock, -1).unwrap_err();
    assert_eq!(m, "Failed to lock mutex: -1");
    let LockError::InnerError(m) = lock_status(LockOp::TryLock, 16).unwrap_err();
    assert_eq!(m, "Failed to try lock mutex: 16");
    let LockError::InnerError(m) = lock_status(LockOp::Read, 22).unwrap_err();
    assert_eq!(m, "Failed to read rwlock: 22");
    let LockError::InnerError(m) = lock_status(LockOp::Write, 12).unwrap_err();
    assert_eq!(m, "Failed to write rwlock: 12");
    let LockError::InnerError(m) = lock_status(LockOp::TryRead, 110).unwrap_err();
    assert_eq!(m, "Failed to try read rwlock: 110");
    let e = lock_status(LockOp::TryWrite, i32::MIN).unwrap_err();
    assert_eq!(e.to_string(), "Inner error: Failed to try write rwlock: -2147483648");
}

#[test]
fn runtime_error_texts() {
    assert_eq!(RuntimeError::Cancelled.to_string(), "Task cancelled");
    assert_eq!(RuntimeError::Panicked("boom".to_string()).to_string(), "Task panicked: boom");
    assert_eq!(RuntimeError::Timeout.to_string(), "Operation timeout");
    assert_eq!(RuntimeError::Other("x".to_string()).to_string(), "Runtime error: x");
}

#[test]
fn task_cell_lifecycle() {
    let mut cell: TaskCell<&str> = TaskCell::new();
    assert_eq!(cell.get_state(), TaskState::Pending);
    assert!(cell.begin_poll());
    assert_eq!(cell.get_state(), TaskState::Running);
    let d = cell.finish_poll(PollOutcome::Pending);
    assert!(!d.finished && d.keep_future && d.wake.is_none());
    assert_eq!(cell.get_state(), TaskState::Pending);
    cell.set_join_waker("joiner");
    assert!(cell.begin_poll());
    let d = cell.finish_poll(PollOutcome::Ready);
    assert!(d.finished && !d.keep_future);
    assert_eq!(d.wake, Some("joiner"));
    assert_eq!(cell.get_state(), TaskState::Completed);
    assert!(cell.is_completed());
}

#[test]
fn cancelled_task_stops_at_next_poll() {
    let mut cell: TaskCell<()> = TaskCell::new();
    cell.cancel();
    assert!(cell.is_cancelled());
    assert!(!cell.begin_poll());
    assert_eq!(cell.get_state(), TaskState::Cancelled);
    assert!(cell.is_completed());
}

#[test]
fn panicked_task_is_cancelled() {
    let mut cell: TaskCell<u8> = TaskCell::new();
    cell.set_join_waker(1);
    cell.begin_poll();
    let d = cell.finish_poll(PollOutcome::Panicked);
    assert!(d.finished);
    assert_eq!(d.wake, Some(1));
    assert_eq!(cell.get_state(), TaskState::Cancelled);
}

#[test]
fn task_state_codes() {
    for (s, c) in [
        (TaskState::Pending, 0usize),
        (TaskState::Running, 1),
        (TaskState::Completed, 2),
        (TaskState::Cancelled, 3),
    ] {
        assert_eq!(s.code(), c);
        assert_eq!(TaskState::from_code(c), s);
    }
    assert_eq!(TaskState::from_code(99), TaskState::Pending);
}

#[test]
fn timing_decisions() {
    let mut y = YieldNow::new();
    assert!(!y.poll());
    assert!(y.poll());
    assert_eq!(sleep_poll(true, 5), SleepPoll::Ready);
    assert_eq!(sleep_poll(false, 1500), SleepPoll::Sleep(1500));
    assert_eq!(sleep_poll(false, (1u128 << 64) + 3), SleepPoll::Sleep(3));
    assert!(timeout_check(10, 10).is_ok());
    assert!(matches!(timeout_check(11, 10), Err(RuntimeError::Timeout)));
    assert_eq!(join_timeout_step(true, 100, 1), JoinStep::Take);
    assert_eq!(join_timeout_step(false, 100, 1), JoinStep::TimedOut);
    assert_eq!(join_timeout_step(false, 1, 100), JoinStep::Yield);
}

#[test]
fn select_and_try_join() {
    assert!(matches!(select_outcome::<u8, u8>(Some(1), None), Some(SelectResult::First(1))));
    assert!(matches!(select_outcome::<u8, u8>(None, Some(2)), Some(SelectResult::Second(2))));
    assert!(select_outcome::<u8, u8>(None, None).is_none());
    let mut results = Vec::new();
    assert!(try_join_step::<u8, &str>(&mut results, Ok(1)).is_none());
    assert!(try_join_step::<u8, &str>(&mut results, Ok(2)).is_none());
    assert_eq!(try_join_step::<u8, &str>(&mut results, Err("bad")), Some("bad"));
    assert_eq!(results, vec![1, 2]);
}

#[test]
fn text_helpers() {
    assert!(eq_ignore_ascii_case("UserInitiated", "userinitiated"));
    assert!(!eq_ignore_ascii_case("Utility", "utilit"));
    assert!(!eq_ignore_ascii_case("é", "É"));
    assert!(text_eq("Result", "Result"));
    assert!(!text_eq("Result", "result"));
    assert_eq!(parse_u64("0"), Ok(0));
    assert_eq!(parse_u64("+12"), Ok(12));
    assert_eq!(parse_u64(""), Err(IntParseError::Empty));
    assert_eq!(parse_u64("+"), Err(IntParseError::InvalidDigit));
    assert_eq!(parse_u64("1a"), Err(IntParseError::InvalidDigit));
    assert_eq!(parse_u64("99999999999999999999a"), Err(IntParseError::TooLarge));
    for s in ["", "+", "12", "+7", "-1", "18446744073709551616", "1_0", "007"] {
        let expected = s.parse::<u64>().map_err(|_| ());
        assert_eq!(parse_u64(s).map_err(|_| ()), expected, "text {:?}", s);
    }
}

#[test]
fn runtime_block_on_maps_results() {
    let rt = Runtime::new();
    let ok = rt.block_on(5u8, |_, v| Ok::<u8, RecvError>(v + 1));
    assert_eq!(ok.unwrap(), 6);
    let failed = ohos_ffrt::block_on(Some(Runtime::global()), 5u8, |_, _| Err::<u8, RecvError>(RecvError));
    assert!(matches!(failed, Err(RuntimeError::Other(m)) if m == "Task failed"));
    let handle = ohos_ffrt::spawn(Some(rt), 3u8, |_, v| v * 2);
    assert_eq!(handle, 6);
}

#[test]
fn system_storage_is_zeroed() {
    let _attr = ohos_ffrt::FfrtTaskAttr::zeroed();
    let _mutex = ohos_ffrt::FfrtMutex::zeroed();
    let _cond = ohos_ffrt::FfrtCond::zeroed();
    let _rwlock = ohos_ffrt::FfrtRwlock::zeroed();
}
