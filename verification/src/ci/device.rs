use vstd::prelude::*;

verus! {

/// A batch of command buffers submitted to a queue, with the semaphores it
/// waits on, at which stages, and those it signals.
pub struct SubmitCI {
    pub wait_stages: Vec<u32>,
    pub wait_semaphores: Vec<u64>,
    pub signal_semaphores: Vec<u64>,
    pub commands: Vec<u64>,
}

impl SubmitCI {
    pub fn new() -> (ci: SubmitCI)
        ensures
            ci.wait_stages@ == Seq::<u32>::empty(),
            ci.wait_semaphores@ == Seq::<u64>::empty(),
            ci.signal_semaphores@ == Seq::<u64>::empty(),
            ci.commands@ == Seq::<u64>::empty(),
    {
        SubmitCI { wait_stages: Vec::new(), wait_semaphores: Vec::new(), signal_semaphores: Vec::new(), commands: Vec::new() }
    }

    pub fn add_command(self, command: u64) -> (ci: SubmitCI)
        ensures
            ci.commands@ == self.commands@.push(command),
            ci.wait_stages@ == self.wait_stages@,
            ci.wait_semaphores@ == self.wait_semaphores@,
            ci.signal_semaphores@ == self.signal_semaphores@,
    {
        let mut commands = self.commands;
        commands.push(command);
        SubmitCI { commands, ..self }
    }

    /// Waits on `semaphore` at stage `stage`.
    pub fn add_wait(self, stage: u32, semaphore: u64) -> (ci: SubmitCI)
        ensures
            ci.commands@ == self.commands@,
            ci.wait_stages@ == self.wait_stages@.push(stage),
            ci.wait_semaphores@ == self.wait_semaphores@.push(semaphore),
            ci.signal_semaphores@ == self.signal_semaphores@,
    {
        let mut wait_stages = self.wait_stages;
        wait_stages.push(stage);
        let mut wait_semaphores = self.wait_semaphores;
        wait_semaphores.push(semaphore);
        SubmitCI { wait_stages, wait_semaphores, ..self }
    }

    pub fn add_signal(self, semaphore: u64) -> (ci: SubmitCI)
        ensures
            ci.commands@ == self.commands@,
            ci.wait_stages@ == self.wait_stages@,
            ci.wait_semaphores@ == self.wait_semaphores@,
            ci.signal_semaphores@ == self.signal_semaphores@.push(semaphore),
    {
        let mut signal_semaphores = self.signal_semaphores;
        signal_semaphores.push(semaphore);
        SubmitCI { signal_semaphores, ..self }
    }
}

} // verus!
