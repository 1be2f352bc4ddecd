use vstd::prelude::*;

use vstd::std_specs::convert::FromSpecImpl;

verus! {

/// A span of time in whole seconds and nanoseconds, short enough to be
/// counted in nanoseconds by a `u64`.
#[derive(Debug, Clone, Copy)]
pub struct TimeSpan {
    secs: u64,
    nanos: u32,
}

impl TimeSpan {
    #[verifier::type_invariant]
    spec fn span_inv(&self) -> bool {
        &&& self.nanos < 1_000_000_000
        &&& self.secs * 1_000_000_000 + self.nanos <= u64::MAX
    }

    /// The whole seconds.
    pub closed spec fn seconds(&self) -> nat {
        self.secs as nat
    }

    /// The nanoseconds past the whole seconds.
    pub closed spec fn subsec(&self) -> nat {
        self.nanos as nat
    }

    /// The span in nanoseconds.
    pub open spec fn total_nanos(&self) -> nat {
        self.seconds() * 1_000_000_000 + self.subsec()
    }

    /// The span of `secs` seconds and `nanos` nanoseconds, where `nanos` is
    /// less than a second and the whole span fits in a `u64` of nanoseconds.
    pub fn new(secs: u64, nanos: u32) -> (span: Option<TimeSpan>)
        ensures
            match span {
                Some(s) => s.seconds() == secs && s.subsec() == nanos,
                None => nanos >= 1_000_000_000 || secs * 1_000_000_000 + nanos > u64::MAX,
            },
    {
        if nanos >= 1_000_000_000 {
            return None;
        }
        if secs > (u64::MAX - nanos as u64) / 1_000_000_000 {
            return None;
        }
        proof {
            let bound = (u64::MAX - nanos as u64) / 1_000_000_000;
            assert(secs * 1_000_000_000 <= bound * 1_000_000_000) by (nonlinear_arith)
                requires
                    secs <= bound,
            ;
        }
        Some(TimeSpan { secs, nanos })
    }

    /// The whole seconds.
    pub fn as_secs(&self) -> (secs: u64)
        ensures
            secs == self.seconds(),
    {
        self.secs
    }

    /// The nanoseconds past the whole seconds.
    pub fn subsec_nanos(&self) -> (nanos: u32)
        ensures
            nanos == self.subsec(),
            nanos < 1_000_000_000,
    {
        proof {
            use_type_invariant(self);
        }
        self.nanos
    }
}

/// How long to wait for a fence or for an image of the swapchain.
#[derive(Debug, Clone, Copy)]
pub enum VkTimeDuration {
    Immediate,
    Time(TimeSpan),
    Infinite,
}

/// The timeout in nanoseconds that a duration is handed to Vulkan as.
pub open spec fn spec_timeout_nanos(time: VkTimeDuration) -> u64 {
    match time {
        VkTimeDuration::Immediate => 0,
        VkTimeDuration::Time(span) => span.total_nanos() as u64,
        VkTimeDuration::Infinite => u64::MAX,
    }
}

impl From<VkTimeDuration> for u64 {
    fn from(time: VkTimeDuration) -> (nanos: u64) {
        match time {
            VkTimeDuration::Immediate => 0,
            VkTimeDuration::Time(span) => {
                proof {
                    use_type_invariant(&span);
                }
                (span.subsec_nanos() as u64) + span.as_secs() * 1_000_000_000
            },
            VkTimeDuration::Infinite => u64::MAX,
        }
    }
}

impl FromSpecImpl<VkTimeDuration> for u64 {
    open spec fn obeys_from_spec() -> bool {
        true
    }

    open spec fn from_spec(time: VkTimeDuration) -> u64 {
        spec_timeout_nanos(time)
    }
}

} // verus!
