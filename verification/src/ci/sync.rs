use vstd::prelude::*;

verus! {

pub const FENCE_CREATE_SIGNALED: u32 = 0b1;

/// The settings of a semaphore.
#[derive(Debug, Clone, Copy, PartialEq, Eq, Structural)]
pub struct SemaphoreCI {
    pub flags: u32,
}

impl SemaphoreCI {
    pub fn new() -> (ci: SemaphoreCI)
        ensures
            ci.flags == 0,
    {
        SemaphoreCI { flags: 0 }
    }

    /// Takes the settings by value and returns nothing: the flags set here
    /// go with the value.
    pub fn flags(self, flags: u32) {
        let _changed = SemaphoreCI { flags };
    }
}

/// The settings of a fence.
#[derive(Debug, Clone, Copy, PartialEq, Eq, Structural)]
pub struct FenceCI {
    pub flags: u32,
}

impl FenceCI {
    /// A fence, signaled from the start if `is_signed`.
    pub fn new(is_signed: bool) -> (ci: FenceCI)
        ensures
            ci.flags == (if is_signed { FENCE_CREATE_SIGNALED } else { 0 }),
    {
        let mut fence = FenceCI { flags: 0 };
        if is_signed {
            fence.flags = FENCE_CREATE_SIGNALED;
        }
        fence
    }

    /// Takes the settings by value and returns nothing: the flags set here
    /// go with the value.
    pub fn flags(self, flags: u32) {
        let _changed = FenceCI { flags };
    }
}

} // verus!
