use vstd::prelude::*;

verus! {

/// Where a spawned task stands.
#[derive(Debug, Clone, Copy, PartialEq, Eq, Structural)]
pub enum TaskState {
    Pending,
    Running,
    Completed,
    Cancelled,
}

/// The number under which a state is stored.
pub open spec fn task_state_code(s: TaskState) -> int {
    match s {
        TaskState::Pending => 0,
        TaskState::Running => 1,
        TaskState::Completed => 2,
        TaskState::Cancelled => 3,
    }
}

/// The state a stored number stands for; an unknown number reads as pending.
pub open spec fn task_state_of(code: int) -> TaskState {
    if code == 1 {
        TaskState::Running
    } else if code == 2 {
        TaskState::Completed
    } else if code == 3 {
        TaskState::Cancelled
    } else {
        TaskState::Pending
    }
}

impl TaskState {
    /// The number under which this state is stored.
    pub fn code(self) -> (c: usize)
        ensures
            c == task_state_code(self),
    {
        match self {
            TaskState::Pending => 0,
            TaskState::Running => 1,
            TaskState::Completed => 2,
            TaskState::Cancelled => 3,
        }
    }

    /// The state a stored number stands for.
    pub fn from_code(code: usize) -> (s: TaskState)
        ensures
            s == task_state_of(code as int),
    {
        match code {
            1 => TaskState::Running,
            2 => TaskState::Completed,
            3 => TaskState::Cancelled,
            _ => TaskState::Pending,
        }
    }
}

/// Storing a state and reading it back gives the same state.
pub proof fn lemma_task_state_round_trip(s: TaskState)
    ensures
        task_state_of(task_state_code(s)) == s,
{
}

/// What polling the task's future gave.
#[derive(Debug, Clone, Copy, PartialEq, Eq, Structural)]
pub enum PollOutcome {
    /// The future finished.
    Ready,
    /// The future is not finished.
    Pending,
    /// The future panicked.
    Panicked,
    /// No future was left to poll.
    Missing,
}

/// The abstract state of a task.
pub struct TaskCellView<W> {
    pub state: TaskState,
    pub cancelled: bool,
    pub has_result: bool,
    pub join_waker: Option<W>,
}

/// The bookkeeping of a spawned task: its state, whether it was asked to
/// stop, whether its result is stored, and the waker of whoever joins it.
pub struct TaskCell<W> {
    state: TaskState,
    cancelled: bool,
    has_result: bool,
    join_waker: Option<W>,
}

impl<W> View for TaskCell<W> {
    type V = TaskCellView<W>;

    closed spec fn view(&self) -> TaskCellView<W> {
        TaskCellView {
            state: self.state,
            cancelled: self.cancelled,
            has_result: self.has_result,
            join_waker: self.join_waker,
        }
    }
}

/// What one poll of a task decided: whether the task is finished, whether
/// the future is kept for another poll, and the joiner's waker to wake.
pub struct PollDecision<W> {
    pub finished: bool,
    pub keep_future: bool,
    pub wake: Option<W>,
}

impl<W> TaskCell<W> {
    /// A task that has not run yet.
    pub fn new() -> (c: Self)
        ensures
            c@ == (TaskCellView::<W> {
                state: TaskState::Pending,
                cancelled: false,
                has_result: false,
                join_waker: None,
            }),
    {
        TaskCell { state: TaskState::Pending, cancelled: false, has_result: false, join_waker: None }
    }

    /// The current state.
    pub fn get_state(&self) -> (s: TaskState)
        ensures
            s == self@.state,
    {
        self.state
    }

    /// Whether the task was asked to stop.
    pub fn is_cancelled(&self) -> (b: bool)
        ensures
            b == self@.cancelled,
    {
        self.cancelled
    }

    /// Whether the task is over, having completed or been cancelled.
    pub fn is_completed(&self) -> (b: bool)
        ensures
            b == (self@.state == TaskState::Completed || self@.state == TaskState::Cancelled),
    {
        match self.state {
            TaskState::Completed => true,
            TaskState::Cancelled => true,
            _ => false,
        }
    }

    /// Asks the task to stop; it stops at its next poll.
    pub fn cancel(&mut self)
        ensures
            final(self)@ == (TaskCellView { cancelled: true, ..old(self)@ }),
    {
        self.cancelled = true;
    }

    /// Leaves the waker of whoever waits for the task.
    pub fn set_join_waker(&mut self, waker: W)
        ensures
            final(self)@ == (TaskCellView { join_waker: Some(waker), ..old(self)@ }),
    {
        self.join_waker = Some(waker);
    }

    /// Starts a poll: a cancelled task becomes `Cancelled` and is finished
    /// without polling (`false`); otherwise it becomes `Running` (`true`).
    pub fn begin_poll(&mut self) -> (go: bool)
        ensures
            go == !old(self)@.cancelled,
            final(self)@ == (TaskCellView {
                state: if go {
                    TaskState::Running
                } else {
                    TaskState::Cancelled
                },
                ..old(self)@
            }),
    {
        if self.cancelled {
            self.state = TaskState::Cancelled;
            false
        } else {
            self.state = TaskState::Running;
            true
        }
    }

    /// Ends a poll with what the future gave: a finished future completes
    /// the task and stores its result, a pending one keeps the future and
    /// makes the task pending again, a panic cancels the task, and a missing
    /// future completes it. Whenever the task ends, the joiner is woken.
    pub fn finish_poll(&mut self, outcome: PollOutcome) -> (d: PollDecision<W>)
        ensures
            d.finished == (outcome != PollOutcome::Pending),
            d.keep_future == (outcome == PollOutcome::Pending),
            final(self)@.cancelled == old(self)@.cancelled,
            final(self)@.state == match outcome {
                PollOutcome::Ready => TaskState::Completed,
                PollOutcome::Pending => TaskState::Pending,
                PollOutcome::Panicked => TaskState::Cancelled,
                PollOutcome::Missing => TaskState::Completed,
            },
            final(self)@.has_result == (old(self)@.has_result || outcome == PollOutcome::Ready),
            d.finished ==> d.wake == old(self)@.join_waker && final(self)@.join_waker is None,
            !d.finished ==> d.wake is None && final(self)@.join_waker == old(self)@.join_waker,
    {
        match outcome {
            PollOutcome::Ready => {
                self.has_result = true;
                self.state = TaskState::Completed;
                let w = self.join_waker.take();
                PollDecision { finished: true, keep_future: false, wake: w }
            },
            PollOutcome::Pending => {
                self.state = TaskState::Pending;
                PollDecision { finished: false, keep_future: true, wake: None }
            },
            PollOutcome::Panicked => {
                self.state = TaskState::Cancelled;
                let w = self.join_waker.take();
                PollDecision { finished: true, keep_future: false, wake: w }
            },
            PollOutcome::Missing => {
                self.state = TaskState::Completed;
                let w = self.join_waker.take();
                PollDecision { finished: true, keep_future: false, wake: w }
            },
        }
    }
}

} // verus!
