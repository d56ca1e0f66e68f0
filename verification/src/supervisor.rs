use vstd::prelude::*;
use vstd::string::StringExecFns;

verus! {

/// The grace period after a successful spawn, in seconds, that lets the
/// child server bind its listening port before "started" is signalled.
pub const STARTUP_GRACE_SECS: u64 = 2;

/// An opaque identifier for one spawned child process. The caller that
/// actually spawns assigns it and keeps the real OS resource beside it.
#[derive(Clone, Copy, Debug, PartialEq, Eq)]
pub struct ProcessHandle {
    pub id: u64,
}

/// What a non-blocking liveness probe of the occupant of the slot found.
#[derive(Debug, PartialEq, Eq)]
pub enum ProbeResult {
    /// The process has exited.
    Exited,
    /// The process is still running.
    Running,
    /// The probe itself failed; the process is treated as not running.
    ProbeFailed,
}

/// The supervisor's decision after checking the slot.
#[derive(Debug, PartialEq, Eq)]
pub enum StartAction {
    /// A live process already occupies the slot; nothing is spawned.
    AlreadyRunning,
    /// The slot is free; the caller should spawn a new process.
    ShouldSpawn,
}

/// What came of an attempted spawn.
#[derive(Debug, PartialEq, Eq)]
pub enum SpawnOutcome {
    /// The spawn succeeded and produced this handle.
    Spawned(ProcessHandle),
    /// The spawn failed, with the OS failure description.
    SpawnFailed(String),
}

/// The supervisor's decision on a stop request.
#[derive(Debug, PartialEq, Eq)]
pub enum StopAction {
    /// Terminate this process; the slot has already been cleared.
    Terminate(ProcessHandle),
    /// No process was running; nothing to do.
    WasNotRunning,
}

/// What came of an attempted termination.
#[derive(Debug, PartialEq, Eq)]
pub enum KillOutcome {
    /// The OS confirmed the process exited.
    Killed,
    /// The termination request failed, with the OS failure description.
    KillFailed(String),
}

/// The slot after the pre-spawn check: a probe that found the occupant
/// still running keeps it; any other finding (no occupant, occupant
/// exited, probe failed) leaves the slot empty.
pub open spec fn start_check_slot(
    slot: Option<ProcessHandle>,
    probe: Option<ProbeResult>,
) -> Option<ProcessHandle> {
    match probe {
        Some(ProbeResult::Running) => slot,
        _ => None,
    }
}

/// The action decided by the pre-spawn check: spawn unless the probe
/// found the occupant still running.
pub open spec fn start_check_action(probe: Option<ProbeResult>) -> StartAction {
    match probe {
        Some(ProbeResult::Running) => StartAction::AlreadyRunning,
        _ => StartAction::ShouldSpawn,
    }
}

/// The slot after a start completes: unchanged when the process was
/// already running, the new handle on a successful spawn, empty on a
/// failed one.
pub open spec fn finish_start_slot(
    slot: Option<ProcessHandle>,
    action: StartAction,
    spawn: Option<SpawnOutcome>,
) -> Option<ProcessHandle> {
    match action {
        StartAction::AlreadyRunning => slot,
        StartAction::ShouldSpawn => match spawn {
            Some(SpawnOutcome::Spawned(h)) => Some(h),
            _ => None,
        },
    }
}

/// The error message for a failed spawn.
pub open spec fn spawn_failure_message(detail: Seq<char>) -> Seq<char> {
    "Failed to start backend: "@ + detail
}

/// The error message for a failed termination.
pub open spec fn kill_failure_message(detail: Seq<char>) -> Seq<char> {
    "Failed to stop backend: "@ + detail
}

/// A `Result` of strings, by the strings' contents.
pub open spec fn result_view(r: Result<String, String>) -> Result<Seq<char>, Seq<char>> {
    match r {
        Ok(s) => Ok(s@),
        Err(e) => Err(e@),
    }
}

/// What a completed start reports to the caller.
pub open spec fn start_report_spec(
    action: StartAction,
    spawn: Option<SpawnOutcome>,
) -> Result<Seq<char>, Seq<char>> {
    match action {
        StartAction::AlreadyRunning => Ok("Backend already running"@),
        StartAction::ShouldSpawn => match spawn {
            Some(SpawnOutcome::Spawned(_)) => Ok("Backend started successfully"@),
            Some(SpawnOutcome::SpawnFailed(e)) => Err(spawn_failure_message(e@)),
            None => arbitrary(),
        },
    }
}

/// The action a stop request decides, given the slot it found.
pub open spec fn stop_take_action(slot: Option<ProcessHandle>) -> StopAction {
    match slot {
        Some(h) => StopAction::Terminate(h),
        None => StopAction::WasNotRunning,
    }
}

/// What a completed stop reports to the caller (`kill` is `None` when no
/// process was running, so there was nothing to terminate).
pub open spec fn stop_report_spec(kill: Option<KillOutcome>) -> Result<Seq<char>, Seq<char>> {
    match kill {
        None => Ok("Backend was not running"@),
        Some(KillOutcome::Killed) => Ok("Backend stopped"@),
        Some(KillOutcome::KillFailed(e)) => Err(kill_failure_message(e@)),
    }
}

/// Owns the lifecycle of the single supervised child process: a single
/// optionally-occupied slot. At most one live handle exists at any time;
/// the raw occupant never leaves the supervisor except through a stop.
pub struct Supervisor {
    slot: Option<ProcessHandle>,
}

impl Supervisor {
    /// The current occupant of the slot.
    pub closed spec fn slot(self) -> Option<ProcessHandle> {
        self.slot
    }

    /// A fresh supervisor with an empty slot: no process is supervised yet.
    pub fn new() -> (s: Supervisor)
        ensures
            s.slot() is None,
    {
        Supervisor { slot: None }
    }

    /// The check-and-clear half of a start. The caller probes liveness
    /// exactly when the slot is occupied and hands in the finding: a
    /// running occupant answers `AlreadyRunning` and keeps the slot; any
    /// other finding clears the slot and asks for a spawn.
    pub fn start_check(&mut self, probe: Option<ProbeResult>) -> (action: StartAction)
        requires
            (old(self).slot() is Some) <==> (probe is Some),
        ensures
            final(self).slot() == start_check_slot(old(self).slot(), probe),
            action == start_check_action(probe),
            action is ShouldSpawn ==> final(self).slot() is None,
    {
        match probe {
            Some(ProbeResult::Running) => StartAction::AlreadyRunning,
            Some(ProbeResult::Exited) | Some(ProbeResult::ProbeFailed) => {
                self.slot = None;
                StartAction::ShouldSpawn
            },
            None => StartAction::ShouldSpawn,
        }
    }

    /// The commit half of a start. When the check asked for a spawn, the
    /// caller hands in the spawn's outcome: success installs the new
    /// handle as the slot's one occupant, failure leaves the slot empty
    /// and reports the OS failure. When the process was already running
    /// nothing changes.
    pub fn finish_start(&mut self, action: StartAction, spawn: Option<SpawnOutcome>) -> (r: Result<
        String,
        String,
    >)
        requires
            (action is ShouldSpawn) <==> (spawn is Some),
            action is ShouldSpawn ==> old(self).slot() is None,
        ensures
            final(self).slot() == finish_start_slot(old(self).slot(), action, spawn),
            result_view(r) == start_report_spec(action, spawn),
    {
        match action {
            StartAction::AlreadyRunning => Ok(String::from_str("Backend already running")),
            StartAction::ShouldSpawn => match spawn {
                Some(SpawnOutcome::Spawned(h)) => {
                    self.slot = Some(h);
                    Ok(String::from_str("Backend started successfully"))
                },
                Some(SpawnOutcome::SpawnFailed(e)) => Err(
                    String::from_str("Failed to start backend: ").concat(e.as_str()),
                ),
                None => Err(String::new()),
            },
        }
    }

    /// The take half of a stop: atomically clears the slot and hands the
    /// occupant, if any, to the caller for termination. After this the
    /// supervisor holds no handle, whatever happens to the process.
    pub fn stop_take(&mut self) -> (action: StopAction)
        ensures
            final(self).slot() is None,
            action == stop_take_action(old(self).slot()),
    {
        match self.slot.take() {
            Some(h) => StopAction::Terminate(h),
            None => StopAction::WasNotRunning,
        }
    }

    /// The report half of a stop: `kill` is `None` when no process was
    /// running, otherwise the outcome of the termination the caller
    /// performed. The second of two stops in a row always lands in the
    /// `None` arm and succeeds with "was not running".
    pub fn stop_report(kill: Option<KillOutcome>) -> (r: Result<String, String>)
        ensures
            result_view(r) == stop_report_spec(kill),
    {
        match kill {
            None => Ok(String::from_str("Backend was not running")),
            Some(KillOutcome::Killed) => Ok(String::from_str("Backend stopped")),
            Some(KillOutcome::KillFailed(e)) => Err(
                String::from_str("Failed to stop backend: ").concat(e.as_str()),
            ),
        }
    }
}

/// Law: starting twice in sequence without an intervening stop never
/// produces two live handles. The first start on an empty slot spawns and
/// installs exactly one handle; the second start's probe finds that
/// process running, so the check answers "already running", spawns
/// nothing, and the slot still holds the same single handle.
pub proof fn lemma_start_twice_single_handle(h: ProcessHandle)
    ensures
        start_check_action(None) == StartAction::ShouldSpawn,
        finish_start_slot(
            start_check_slot(None, None),
            StartAction::ShouldSpawn,
            Some(SpawnOutcome::Spawned(h)),
        ) == Some(h),
        start_check_action(Some(ProbeResult::Running)) == StartAction::AlreadyRunning,
        start_check_slot(Some(h), Some(ProbeResult::Running)) == Some(h),
        finish_start_slot(Some(h), StartAction::AlreadyRunning, None) == Some(h),
        start_report_spec(StartAction::AlreadyRunning, None) == Ok::<Seq<char>, Seq<char>>(
            "Backend already running"@,
        ),
{
}

/// Law: stopping twice in sequence reports "stopped" and then "was not
/// running", and the second call is not an error. The first stop takes
/// the occupant for termination and leaves the slot empty; the second
/// finds the slot empty, terminates nothing, and still succeeds.
pub proof fn lemma_stop_twice(h: ProcessHandle)
    ensures
        stop_take_action(Some(h)) == StopAction::Terminate(h),
        stop_report_spec(Some(KillOutcome::Killed)) == Ok::<Seq<char>, Seq<char>>(
            "Backend stopped"@,
        ),
        stop_take_action(None) == StopAction::WasNotRunning,
        stop_report_spec(None) == Ok::<Seq<char>, Seq<char>>("Backend was not running"@),
        stop_report_spec(None) is Ok,
{
}

} // verus!
