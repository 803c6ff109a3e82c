use vstd::prelude::*;

verus! {

/// The flags that the capture and render workers share with the settings
/// window: whether the workers run, and whether they are asked to stop.
#[derive(Debug, Clone, Copy, PartialEq, Eq, Structural)]
pub struct RunFlags {
    pub is_running: bool,
    pub stop: bool,
}

/// Whether a start request spawns the workers: only when they do not run.
pub open spec fn start_spawns(f: RunFlags) -> bool {
    !f.is_running
}

/// The flags after a start request.
pub open spec fn after_start(f: RunFlags) -> RunFlags {
    if f.is_running {
        f
    } else {
        RunFlags { is_running: true, stop: false }
    }
}

/// The flags after a stop request.
pub open spec fn after_stop(f: RunFlags) -> RunFlags {
    RunFlags { is_running: false, stop: true }
}

/// The flags after the render worker has ended.
pub open spec fn after_exit(f: RunFlags) -> RunFlags {
    RunFlags { is_running: false, stop: f.stop }
}

impl RunFlags {
    /// Nothing runs, nothing is asked to stop.
    pub fn new() -> (f: Self)
        ensures
            f == (RunFlags { is_running: false, stop: false }),
    {
        RunFlags { is_running: false, stop: false }
    }

    /// A start request: when the workers already run it changes nothing and
    /// returns false; otherwise it clears the stop request, marks them
    /// running and returns true, and the caller spawns them.
    pub fn start(&mut self) -> (spawn: bool)
        ensures
            spawn == start_spawns(*old(self)),
            *final(self) == after_start(*old(self)),
    {
        if self.is_running {
            return false;
        }
        self.stop = false;
        self.is_running = true;
        true
    }

    /// A stop request: the workers are asked to stop and no longer count as
    /// running.
    pub fn request_stop(&mut self)
        ensures
            *final(self) == after_stop(*old(self)),
    {
        self.stop = true;
        self.is_running = false;
    }

    /// The render worker has ended: the workers no longer count as running.
    pub fn worker_exited(&mut self)
        ensures
            *final(self) == after_exit(*old(self)),
    {
        self.is_running = false;
    }
}

/// Law: a second start request while the workers run spawns nothing and
/// changes nothing.
pub proof fn lemma_start_idempotent(f: RunFlags)
    ensures
        !start_spawns(after_start(f)),
        after_start(after_start(f)) == after_start(f),
{
}

/// Law: a start request after a stop request (the Restart button) always
/// spawns fresh workers, which are not asked to stop.
pub proof fn lemma_restart_spawns(f: RunFlags)
    ensures
        start_spawns(after_stop(f)),
        after_start(after_stop(f)) == (RunFlags { is_running: true, stop: false }),
{
}

/// Law: once the render worker has ended, a start request spawns again.
pub proof fn lemma_start_after_exit(f: RunFlags)
    ensures
        start_spawns(after_exit(f)),
{
}

} // verus!
