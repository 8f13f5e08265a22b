use vstd::prelude::*;

verus! {

/// QoS levels as the FFRT system interface numbers them.
#[derive(Debug, Clone, Copy, PartialEq, Eq, Structural)]
pub enum FfrtQos {
    Background,
    Utility,
    Default,
    UserInitiated,
    UserInteractive,
}

/// The number of a system QoS level.
pub open spec fn ffrt_qos_code(q: FfrtQos) -> int {
    match q {
        FfrtQos::Background => 0,
        FfrtQos::Utility => 1,
        FfrtQos::Default => 2,
        FfrtQos::UserInitiated => 3,
        FfrtQos::UserInteractive => 4,
    }
}

impl FfrtQos {
    /// The number of this level.
    pub fn code(self) -> (c: i32)
        ensures
            c == ffrt_qos_code(self),
    {
        match self {
            FfrtQos::Background => 0,
            FfrtQos::Utility => 1,
            FfrtQos::Default => 2,
            FfrtQos::UserInitiated => 3,
            FfrtQos::UserInteractive => 4,
        }
    }

    /// The level a number names; only the numbers 0 to 4 are levels.
    pub fn from_code(code: i32) -> (q: Option<FfrtQos>)
        ensures
            q matches Some(l) ==> ffrt_qos_code(l) == code,
            q is Some <==> 0 <= code <= 4,
    {
        match code {
            0 => Some(FfrtQos::Background),
            1 => Some(FfrtQos::Utility),
            2 => Some(FfrtQos::Default),
            3 => Some(FfrtQos::UserInitiated),
            4 => Some(FfrtQos::UserInteractive),
            _ => None,
        }
    }
}

/// Storage for a task attribute object of the system interface.
pub struct FfrtTaskAttr {
    bytes: [u8; 128],
}

/// Storage for a mutex of the system interface.
pub struct FfrtMutex {
    bytes: [u8; 40],
}

/// Storage for a condition variable of the system interface.
pub struct FfrtCond {
    bytes: [u8; 48],
}

/// Storage for a read-write lock of the system interface.
pub struct FfrtRwlock {
    bytes: [u8; 56],
}

impl FfrtTaskAttr {
    /// Zero-filled storage, for the system to initialise.
    pub fn zeroed() -> (s: Self)
        ensures
            s.is_zeroed(),
    {
        FfrtTaskAttr { bytes: [0u8; 128] }
    }

    /// Whether every byte is zero.
    pub closed spec fn is_zeroed(&self) -> bool {
        forall|i: int| 0 <= i < 128 ==> self.bytes@[i] == 0
    }
}

impl FfrtMutex {
    /// Zero-filled storage, for the system to initialise.
    pub fn zeroed() -> (s: Self)
        ensures
            s.is_zeroed(),
    {
        FfrtMutex { bytes: [0u8; 40] }
    }

    /// Whether every byte is zero.
    pub closed spec fn is_zeroed(&self) -> bool {
        forall|i: int| 0 <= i < 40 ==> self.bytes@[i] == 0
    }
}

impl FfrtCond {
    /// Zero-filled storage, for the system to initialise.
    pub fn zeroed() -> (s: Self)
        ensures
            s.is_zeroed(),
    {
        FfrtCond { bytes: [0u8; 48] }
    }

    /// Whether every byte is zero.
    pub closed spec fn is_zeroed(&self) -> bool {
        forall|i: int| 0 <= i < 48 ==> self.bytes@[i] == 0
    }
}

impl FfrtRwlock {
    /// Zero-filled storage, for the system to initialise.
    pub fn zeroed() -> (s: Self)
        ensures
            s.is_zeroed(),
    {
        FfrtRwlock { bytes: [0u8; 56] }
    }

    /// Whether every byte is zero.
    pub closed spec fn is_zeroed(&self) -> bool {
        forall|i: int| 0 <= i < 56 ==> self.bytes@[i] == 0
    }
}

} // verus!
