//! What happens to a VM instance when its crosvm process exits.
use vstd::prelude::*;

verus! {

/// One step of the work done once the crosvm process of a VM has exited.
#[derive(Clone, Copy, Debug, PartialEq, Eq, Structural)]
pub enum ExitStep {
    /// Clear the liveness flag, so that the VM reads as no longer running.
    MarkStopped,
    /// Tell the registered callbacks that the VM with this CID has died.
    NotifyDied(u32),
    /// Remove the temporary directory of the VM with all its contents.
    RemoveTemporaryDirectory,
}

/// The steps taken when the process exits: all of them, in order, the first time; none after.
pub open spec fn exit_steps(running: bool, cid: u32) -> Seq<ExitStep> {
    if running {
        seq![ExitStep::MarkStopped, ExitStep::NotifyDied(cid), ExitStep::RemoveTemporaryDirectory]
    } else {
        seq![]
    }
}

/// Tracks whether the crosvm process of one VM is still running, and hands out the exit work
/// exactly once.
#[derive(Debug)]
pub struct ExitTracker {
    cid: u32,
    running: bool,
}

impl ExitTracker {
    /// The CID of the VM.
    pub closed spec fn spec_cid(&self) -> u32 {
        self.cid
    }

    /// Whether the process is still considered running.
    pub closed spec fn is_running(&self) -> bool {
        self.running
    }

    /// A tracker for a VM whose process has just been started.
    pub fn new(cid: u32) -> (r: ExitTracker)
        ensures
            r.spec_cid() == cid,
            r.is_running(),
    {
        ExitTracker { cid, running: true }
    }

    /// Returns whether the process is still running.
    pub fn running(&self) -> (r: bool)
        ensures
            r == self.is_running(),
    {
        self.running
    }

    /// The CID of the VM.
    pub fn cid(&self) -> (r: u32)
        ensures
            r == self.spec_cid(),
    {
        self.cid
    }

    /// Records that the process has exited and returns the steps still to be done for it.
    pub fn process_exited(&mut self) -> (steps: Vec<ExitStep>)
        ensures
            steps@ == exit_steps(old(self).is_running(), old(self).spec_cid()),
            !final(self).is_running(),
            final(self).spec_cid() == old(self).spec_cid(),
    {
        let mut steps: Vec<ExitStep> = Vec::new();
        if self.running {
            self.running = false;
            steps.push(ExitStep::MarkStopped);
            steps.push(ExitStep::NotifyDied(self.cid));
            steps.push(ExitStep::RemoveTemporaryDirectory);
        }
        assert(steps@ =~= exit_steps(old(self).is_running(), old(self).spec_cid()));
        steps
    }
}

/// Over the life of a VM, exit work is handed out once: the first exit of a running VM stops
/// it, then notifies the death of that CID exactly once and removes its directory; any later
/// exit hands out nothing.
pub proof fn lemma_exit_handled_once(cid: u32)
    ensures
        exit_steps(true, cid)[0] == ExitStep::MarkStopped,
        exit_steps(true, cid).last() == ExitStep::RemoveTemporaryDirectory,
        forall|i: int|
            0 <= i < exit_steps(true, cid).len() ==> (#[trigger] exit_steps(true, cid)[i] is NotifyDied
                <==> i == 1),
        exit_steps(true, cid)[1] == ExitStep::NotifyDied(cid),
        exit_steps(false, cid).len() == 0,
{
}

} // verus!
