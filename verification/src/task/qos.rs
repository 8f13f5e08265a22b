use vstd::prelude::*;

verus! {

/// The raw value that FFRT uses for "inherit the submitter's QoS".
pub const FFRT_QOS_INHERIT: i32 = -1;
/// The raw value of the background QoS level.
pub const FFRT_QOS_BACKGROUND: i32 = 0;
/// The raw value of the utility QoS level.
pub const FFRT_QOS_UTILITY: i32 = 1;
/// The raw value of the default QoS level.
pub const FFRT_QOS_DEFAULT: i32 = 2;
/// The raw value of the user-initiated QoS level.
pub const FFRT_QOS_USER_INITIATED: i32 = 3;

/// Quality-of-service level of a task.
#[derive(Debug, Clone, Copy, PartialEq, Eq, Structural)]
pub enum Qos {
    Inherit,
    Background,
    Utility,
    Default,
    UserInitiated,
}

/// The raw FFRT value of a QoS level.
pub open spec fn qos_code(q: Qos) -> int {
    match q {
        Qos::Inherit => -1,
        Qos::Background => 0,
        Qos::Utility => 1,
        Qos::Default => 2,
        Qos::UserInitiated => 3,
    }
}

/// The raw values that name a QoS level.
pub open spec fn is_qos_code(code: int) -> bool {
    -1 <= code <= 3
}

/// The QoS level a raw value names.
pub open spec fn qos_of_code(code: int) -> Qos {
    if code == -1 {
        Qos::Inherit
    } else if code == 0 {
        Qos::Background
    } else if code == 1 {
        Qos::Utility
    } else if code == 2 {
        Qos::Default
    } else {
        Qos::UserInitiated
    }
}

impl Qos {
    /// The raw FFRT value of this level.
    pub fn code(self) -> (c: i32)
        ensures
            c == qos_code(self),
            is_qos_code(c as int),
    {
        match self {
            Qos::Inherit => FFRT_QOS_INHERIT,
            Qos::Background => FFRT_QOS_BACKGROUND,
            Qos::Utility => FFRT_QOS_UTILITY,
            Qos::Default => FFRT_QOS_DEFAULT,
            Qos::UserInitiated => FFRT_QOS_USER_INITIATED,
        }
    }

    /// The level a raw FFRT value names; only the five raw values of FFRT are accepted.
    pub fn from_code(code: i32) -> (q: Qos)
        requires
            is_qos_code(code as int),
        ensures
            q == qos_of_code(code as int),
            qos_code(q) == code,
    {
        if code == FFRT_QOS_INHERIT {
            Qos::Inherit
        } else if code == FFRT_QOS_BACKGROUND {
            Qos::Background
        } else if code == FFRT_QOS_UTILITY {
            Qos::Utility
        } else if code == FFRT_QOS_DEFAULT {
            Qos::Default
        } else {
            Qos::UserInitiated
        }
    }
}

/// Converting a level to its raw value and back gives the same level.
pub proof fn lemma_qos_code_round_trip(q: Qos)
    ensures
        is_qos_code(qos_code(q)),
        qos_of_code(qos_code(q)) == q,
{
}

/// Converting a raw value to its level and back gives the same raw value.
pub proof fn lemma_qos_of_code_round_trip(code: int)
    requires
        is_qos_code(code),
    ensures
        qos_code(qos_of_code(code)) == code,
{
}

} // verus!
