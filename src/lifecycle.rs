//! The guard of the sleep-prevention helper process. The owning record
//! lives with the orchestrator; a process-wide slot holds only the helper's
//! process id, so that a signal handler or a panic hook can reach it. The
//! caller spawns and signals processes as these decisions name.

use vstd::prelude::*;

verus! {

/// The process-wide record of the helper: its process id, or 0 for none.
pub struct SleepSlot {
    pub pid: u32,
}

impl SleepSlot {
    pub fn new() -> (r: SleepSlot)
        ensures
            r.pid == 0,
    {
        SleepSlot { pid: 0 }
    }
}

/// What keeping the system awake asks of the caller.
#[derive(PartialEq, Eq, Structural, Clone, Copy, Debug)]
pub enum AwakeAction {
    /// Spawn the helper, then report its process id.
    Spawn,
    /// A helper already runs: nothing to do.
    AlreadyRunning,
}

/// What releasing the guard asks of the caller.
#[derive(PartialEq, Eq, Structural, Clone, Copy, Debug)]
pub enum ReleasePlan {
    /// Nothing is held.
    Nothing,
    /// Ask the owned helper to terminate, wait a bounded time, then force it.
    Graceful(u32),
    /// Only the slot named a helper: ask it to terminate.
    Orphan(u32),
    /// The crash path has already terminated the owned helper: collect its
    /// exit status, sending it no signal.
    Reap(u32),
}

/// The process that a plan asks to be signalled, if any.
pub open spec fn terminated_by(plan: ReleasePlan) -> Option<u32> {
    match plan {
        ReleasePlan::Graceful(p) => Some(p),
        ReleasePlan::Orphan(p) => Some(p),
        ReleasePlan::Reap(_) => None,
        ReleasePlan::Nothing => None,
    }
}

/// The owning record of the helper process.
pub struct SystemUtils {
    pub caffeinate_pid: Option<u32>,
}

/// The release that a guard holding `owned`, with `slot` in the process-wide
/// record (0 for none), asks for. An owned helper that the slot no longer
/// names was already terminated by the crash path: it is only reaped.
pub open spec fn release_plan(owned: Option<u32>, slot: u32) -> ReleasePlan {
    match owned {
        Some(p) => if slot != 0 && slot == p {
            ReleasePlan::Graceful(p)
        } else {
            ReleasePlan::Reap(p)
        },
        None => if slot != 0 {
            ReleasePlan::Orphan(slot)
        } else {
            ReleasePlan::Nothing
        },
    }
}

/// The state that a release leaves: nothing owned, nothing recorded.
pub open spec fn released(guard: SystemUtils, slot: SleepSlot) -> bool {
    guard.caffeinate_pid is None && slot.pid == 0
}

/// The crash path's reading of the process-wide record: the helper to
/// force-terminate, if any.
pub open spec fn crash_target(slot: u32) -> Option<u32> {
    if slot != 0 {
        Some(slot)
    } else {
        None
    }
}

impl SystemUtils {
    pub fn new() -> (r: SystemUtils)
        ensures
            r.caffeinate_pid is None,
    {
        SystemUtils { caffeinate_pid: None }
    }

    /// Keeping the system awake spawns the helper only when none is held.
    pub fn keep_system_awake(&self) -> (r: AwakeAction)
        ensures
            self.caffeinate_pid is None ==> r == AwakeAction::Spawn,
            self.caffeinate_pid is Some ==> r == AwakeAction::AlreadyRunning,
    {
        if self.caffeinate_pid.is_none() {
            AwakeAction::Spawn
        } else {
            AwakeAction::AlreadyRunning
        }
    }

    /// Records the helper just spawned, in the owning record and in the
    /// process-wide slot.
    pub fn awake_started(&mut self, slot: &mut SleepSlot, pid: u32)
        ensures
            final(self).caffeinate_pid == Some(pid),
            final(slot).pid == pid,
    {
        self.caffeinate_pid = Some(pid);
        slot.pid = pid;
    }

    /// Releases the guard: clears the slot first, then names the helper to
    /// terminate. Releasing again asks for nothing; after the crash path has
    /// cleared the slot, no termination is named.
    pub fn allow_system_sleep(&mut self, slot: &mut SleepSlot) -> (r: ReleasePlan)
        ensures
            r == release_plan(old(self).caffeinate_pid, old(slot).pid),
            old(slot).pid == 0 ==> terminated_by(r) is None,
            released(*final(self), *final(slot)),
    {
        let recorded = slot.pid;
        slot.pid = 0;
        match self.caffeinate_pid {
            Some(pid) => {
                self.caffeinate_pid = None;
                if recorded != 0 && recorded == pid {
                    ReleasePlan::Graceful(pid)
                } else {
                    ReleasePlan::Reap(pid)
                }
            },
            None => {
                if recorded != 0 {
                    ReleasePlan::Orphan(recorded)
                } else {
                    ReleasePlan::Nothing
                }
            },
        }
    }
}

/// The crash path: takes the helper's id out of the process-wide slot and
/// names it for force-termination, with no waiting. A second call, or a call
/// after a normal release, names nothing.
pub fn cleanup_caffeinate(slot: &mut SleepSlot) -> (r: Option<u32>)
    ensures
        r == crash_target(old(slot).pid),
        final(slot).pid == 0,
{
    let pid = slot.pid;
    slot.pid = 0;
    if pid != 0 {
        Some(pid)
    } else {
        None
    }
}

/// Release is idempotent: in the state that a release leaves, releasing
/// again and running the crash path both ask for nothing.
pub proof fn lemma_release_idempotent(guard: SystemUtils, slot: SleepSlot)
    requires
        released(guard, slot),
    ensures
        release_plan(guard.caffeinate_pid, slot.pid) == ReleasePlan::Nothing,
        crash_target(slot.pid) is None,
{
}

/// The helper is terminated once, by whichever path runs first: the crash
/// path names the recorded helper and clears the slot, after which a normal
/// release names no termination, whatever the guard still owns.
pub proof fn lemma_crash_path_first(owned: Option<u32>, slot: u32)
    requires
        owned matches Some(p) ==> p == slot,
    ensures
        slot != 0 ==> crash_target(slot) == Some(slot),
        terminated_by(release_plan(owned, 0)) is None,
        crash_target(0) is None,
{
}

} // verus!
