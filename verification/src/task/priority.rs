use vstd::prelude::*;

verus! {

/// The raw value of the immediate queue priority.
pub const FFRT_QUEUE_PRIORITY_IMMEDIATE: u32 = 0;
/// The raw value of the high queue priority.
pub const FFRT_QUEUE_PRIORITY_HIGH: u32 = 1;
/// The raw value of the low queue priority.
pub const FFRT_QUEUE_PRIORITY_LOW: u32 = 2;
/// The raw value of the idle queue priority.
pub const FFRT_QUEUE_PRIORITY_IDLE: u32 = 3;

/// Priority of a task in its queue.
#[derive(Debug, Clone, Copy, PartialEq, Eq, Structural)]
pub enum TaskPriority {
    Immediate,
    High,
    Low,
    Idle,
}

/// The raw FFRT value of a priority.
pub open spec fn priority_code(p: TaskPriority) -> int {
    match p {
        TaskPriority::Immediate => 0,
        TaskPriority::High => 1,
        TaskPriority::Low => 2,
        TaskPriority::Idle => 3,
    }
}

/// The raw values that name a priority.
pub open spec fn is_priority_code(code: int) -> bool {
    0 <= code <= 3
}

/// The priority a raw value names.
pub open spec fn priority_of_code(code: int) -> TaskPriority {
    if code == 0 {
        TaskPriority::Immediate
    } else if code == 1 {
        TaskPriority::High
    } else if code == 2 {
        TaskPriority::Low
    } else {
        TaskPriority::Idle
    }
}

impl TaskPriority {
    /// The raw FFRT value of this priority.
    pub fn code(self) -> (c: u32)
        ensures
            c == priority_code(self),
            is_priority_code(c as int),
    {
        match self {
            TaskPriority::Immediate => FFRT_QUEUE_PRIORITY_IMMEDIATE,
            TaskPriority::High => FFRT_QUEUE_PRIORITY_HIGH,
            TaskPriority::Low => FFRT_QUEUE_PRIORITY_LOW,
            TaskPriority::Idle => FFRT_QUEUE_PRIORITY_IDLE,
        }
    }

    /// The priority a raw FFRT value names; only the four raw values of FFRT are accepted.
    pub fn from_code(code: u32) -> (p: TaskPriority)
        requires
            is_priority_code(code as int),
        ensures
            p == priority_of_code(code as int),
            priority_code(p) == code,
    {
        if code == FFRT_QUEUE_PRIORITY_IMMEDIATE {
            TaskPriority::Immediate
        } else if code == FFRT_QUEUE_PRIORITY_HIGH {
            TaskPriority::High
        } else if code == FFRT_QUEUE_PRIORITY_LOW {
            TaskPriority::Low
        } else {
            TaskPriority::Idle
        }
    }
}

/// Converting a priority to its raw value and back gives the same priority.
pub proof fn lemma_priority_code_round_trip(p: TaskPriority)
    ensures
        is_priority_code(priority_code(p)),
        priority_of_code(priority_code(p)) == p,
{
}

/// Converting a raw value to its priority and back gives the same raw value.
pub proof fn lemma_priority_of_code_round_trip(code: int)
    requires
        is_priority_code(code),
    ensures
        priority_code(priority_of_code(code)) == code,
{
}

} // verus!
