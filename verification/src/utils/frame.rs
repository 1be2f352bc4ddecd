use vstd::prelude::*;

verus! {

/// Counts the frames that may be in flight at the same time, cycling
/// through `0 .. frame_in_flight`.
pub struct FrameCounter {
    frame_in_flight: usize,
    current: usize,
}

/// The frame index that follows `current` when `frames` frames may be in flight.
pub open spec fn spec_next_frame(current: nat, frames: nat) -> nat {
    ((current as int + 1) % (frames as int)) as nat
}

/// The frame index reached after `steps` advances from frame 0.
pub open spec fn spec_frame_after(steps: nat, frames: nat) -> nat
    decreases steps,
{
    if steps == 0 {
        0
    } else {
        spec_next_frame(spec_frame_after((steps - 1) as nat, frames), frames)
    }
}

impl FrameCounter {
    /// The number of frames that may be in flight.
    pub closed spec fn frames(&self) -> nat {
        self.frame_in_flight as nat
    }

    /// The index of the current frame.
    pub closed spec fn current(&self) -> nat {
        self.current as nat
    }

    #[verifier::type_invariant]
    spec fn counter_inv(&self) -> bool {
        if self.frame_in_flight == 0 {
            self.current == 0
        } else {
            self.current < self.frame_in_flight
        }
    }

    pub fn new(frame_in_flight: usize) -> (counter: FrameCounter)
        ensures
            counter.frames() == frame_in_flight,
            counter.current() == 0,
    {
        FrameCounter { frame_in_flight, current: 0 }
    }

    pub fn current_frame(&self) -> (index: usize)
        ensures
            index == self.current(),
            self.frames() > 0 ==> index < self.frames(),
    {
        proof {
            use_type_invariant(self);
        }
        self.current
    }

    pub fn next_frame(&mut self)
        requires
            old(self).frames() > 0,
        ensures
            final(self).frames() == old(self).frames(),
            final(self).current() == spec_next_frame(old(self).current(), old(self).frames()),
    {
        proof {
            use_type_invariant(&*self);
        }
        self.current = (self.current + 1) % self.frame_in_flight;
    }
}

/// Starting from frame 0, `steps` calls of `next_frame` land on frame
/// `steps % frames`, so the counter visits every frame in turn.
pub proof fn lemma_frame_after_is_mod(steps: nat, frames: nat)
    requires
        frames > 0,
    ensures
        spec_frame_after(steps, frames) as int == (steps as int) % (frames as int),
    decreases steps,
{
    if steps > 0 {
        lemma_frame_after_is_mod((steps - 1) as nat, frames);
        let p = (steps - 1) as int;
        let f = frames as int;
        assert(((p % f) + 1) % f == (p + 1) % f) by {
            vstd::arithmetic::div_mod::lemma_fundamental_div_mod(p, f);
            vstd::arithmetic::div_mod::lemma_mod_multiples_vanish(p / f, p % f + 1, f);
            assert(p + 1 == f * (p / f) + (p % f + 1));
        }
    } else {
        vstd::arithmetic::div_mod::lemma_small_mod(0, frames);
    }
}

/// What the render loop is asked to do next.
#[derive(Debug, Clone, Copy, PartialEq, Eq, Structural)]
pub enum FrameAction {
    /// ordinary action.
    Rendering,
    /// the swapchain has to be rebuilt to fit the current window surface.
    SwapchainRecreate,
    /// the program is asked to terminate.
    Terminal,
}

} // verus!
