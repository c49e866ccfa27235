//! The backend process supervisor: the single slot that tracks the worker
//! process, and the spawn/stop decisions around it.
//!
//! The shell performs the operating-system work — resolving the packaged
//! resource to a path, spawning the executable, killing and reaping it — and
//! reports each outcome back here. Every decision about the tracked state is
//! made by the verified functions in this module. The shell owns exactly one
//! `Supervisor` behind a mutual-exclusion lock, so that independent callbacks
//! (startup auto-start, the tray quit handler) never observe the slot
//! mid-update; within that lock, every method takes `&mut self`.

use vstd::prelude::*;

verus! {

/// Identifier by which the shell names a live worker process.
pub type ProcessId = u64;

/// The single state slot owned by the supervisor: no tracked worker, or
/// exactly one.
#[derive(Clone, Copy, PartialEq, Eq, Structural, Debug)]
pub enum SlotState {
    Empty,
    Occupied(ProcessId),
}

/// What the shell observed when it issued a spawn.
#[derive(Clone, PartialEq, Eq, Debug)]
pub enum SpawnOutcome {
    /// The operating system created the process and gave it this identifier.
    Launched(ProcessId),
    /// The operating system refused to create the process, for the reason in
    /// the text.
    Refused(String),
}

/// Reported when the worker could not be started: carries the resolved path
/// and the operating-system failure. Not fatal to the application, which
/// keeps running without a worker.
#[derive(Clone, PartialEq, Eq, Debug)]
pub struct SpawnError {
    pub path: String,
    pub reason: String,
}

/// Reported when the logical location of the worker executable could not be
/// mapped to a filesystem path. Not fatal to the application.
#[derive(Clone, PartialEq, Eq, Debug)]
pub struct ResourceResolutionError {
    pub resource: String,
}

/// A failure while terminating the worker. The stop policy is best-effort —
/// such failures are absorbed, never surfaced — so the supervisor reports
/// this type but never produces it.
#[derive(Clone, PartialEq, Eq, Debug)]
pub struct StopError {
    pub reason: String,
}

/// What the shell observed when it terminated and reaped a worker.
#[derive(Clone, PartialEq, Eq, Debug)]
pub enum TerminationOutcome {
    /// No worker was tracked, so there was nothing to terminate.
    NoneTracked,
    /// The worker was killed (or had already exited) and was reaped.
    Reaped,
    /// The kill request failed, for the reason in the text.
    KillFailed(String),
    /// The blocking wait for exit failed, for the reason in the text.
    WaitFailed(String),
}

/// A launch request the shell is asked to carry out: the resolved executable
/// path, with the platform hint that no console window may appear.
#[derive(Clone, PartialEq, Eq, Debug)]
pub struct SpawnRequest {
    pub path: String,
    /// On platforms where a spawned process normally allocates a console
    /// window, the shell must suppress it.
    pub suppress_console: bool,
}

/// The slot after a spawn outcome is recorded: success overwrites whatever
/// was tracked; failure leaves the slot as it was.
pub open spec fn slot_after_start(s: SlotState, outcome: SpawnOutcome) -> SlotState {
    match outcome {
        SpawnOutcome::Launched(id) => SlotState::Occupied(id),
        SpawnOutcome::Refused(_) => s,
    }
}

/// The slot after a stop: always empty, whatever was tracked before.
pub open spec fn slot_after_stop(s: SlotState) -> SlotState {
    SlotState::Empty
}

/// The worker a slot tracks, if any.
pub open spec fn occupant(s: SlotState) -> Option<ProcessId> {
    match s {
        SlotState::Empty => None,
        SlotState::Occupied(id) => Some(id),
    }
}

/// The logical location of the bundled worker executable, relative to the
/// packaged resource directory. The shell's resolver turns it into an
/// absolute path.
pub fn worker_resource() -> (r: String)
    ensures
        r@ == "bin/stasis-backend.exe"@,
{
    let r = String::from_str("bin/stasis-backend.exe");
    r
}

/// Builds the launch request for a resolution outcome: a resolved path
/// becomes a request with the console suppressed; an unresolved resource is
/// a descriptive error, never a panic.
pub fn prepare_spawn(resource: String, resolved: Option<String>) -> (r: Result<
    SpawnRequest,
    ResourceResolutionError,
>)
    ensures
        (resolved matches Some(path) ==> r == Ok::<SpawnRequest, ResourceResolutionError>(
            SpawnRequest { path, suppress_console: true },
        )),
        resolved is None ==> r == Err::<SpawnRequest, ResourceResolutionError>(
            ResourceResolutionError { resource },
        ),
{
    match resolved {
        Some(path) => Ok(SpawnRequest { path, suppress_console: true }),
        None => Err(ResourceResolutionError { resource }),
    }
}

/// Owns the spawn/stop contract for the worker process. At any instant it
/// tracks zero or one live worker; there is no monitoring loop, so a worker
/// that exits on its own stays tracked until the next `stop`.
pub struct Supervisor {
    slot: SlotState,
}

impl View for Supervisor {
    type V = SlotState;

    closed spec fn view(&self) -> SlotState {
        self.slot
    }
}

impl Supervisor {
    /// A fresh supervisor tracks nothing.
    pub fn new() -> (r: Supervisor)
        ensures
            r@ == SlotState::Empty,
    {
        Supervisor { slot: SlotState::Empty }
    }

    /// Records the outcome of the spawn the shell issued for `path`. On
    /// success the new worker is stored, overwriting any previously tracked
    /// one — the previous worker is left untouched, by design: callers that
    /// need leak-freedom must `stop` first. On failure the slot is unchanged
    /// and the error carries the resolved path and the reason.
    pub fn start(&mut self, path: String, outcome: SpawnOutcome) -> (r: Result<(), SpawnError>)
        ensures
            final(self)@ == slot_after_start(old(self)@, outcome),
            r is Ok <==> outcome is Launched,
            (outcome matches SpawnOutcome::Refused(reason) ==> r == Err::<(), SpawnError>(
                SpawnError { path, reason },
            )),
    {
        match outcome {
            SpawnOutcome::Launched(id) => {
                self.slot = SlotState::Occupied(id);
                Ok(())
            },
            SpawnOutcome::Refused(reason) => Err(SpawnError { path, reason }),
        }
    }

    /// Atomically takes the tracked worker out of the slot and hands it to
    /// the shell, which must now kill it and block until it is reaped. After
    /// this returns the slot is empty whatever it held; with nothing tracked
    /// this is a no-op that returns nothing to reap.
    pub fn stop(&mut self) -> (r: Option<ProcessId>)
        ensures
            final(self)@ == slot_after_stop(old(self)@),
            r == occupant(old(self)@),
    {
        let taken = self.slot;
        self.slot = SlotState::Empty;
        match taken {
            SlotState::Empty => None,
            SlotState::Occupied(id) => Some(id),
        }
    }

    /// Whether a worker is currently tracked.
    pub fn is_occupied(&self) -> (r: bool)
        ensures
            r == (self@ is Occupied),
    {
        match self.slot {
            SlotState::Empty => false,
            SlotState::Occupied(_) => true,
        }
    }

    /// The tracked worker, if any.
    pub fn tracked_worker(&self) -> (r: Option<ProcessId>)
        ensures
            r == occupant(self@),
    {
        match self.slot {
            SlotState::Empty => None,
            SlotState::Occupied(id) => Some(id),
        }
    }
}

/// Settles the result of a stop from what the shell observed: termination
/// and wait failures are absorbed — the stop still reports success, because
/// the application is about to exit regardless.
pub fn settle_stop(outcome: TerminationOutcome) -> (r: Result<(), StopError>)
    ensures
        r == Ok::<(), StopError>(()),
{
    match outcome {
        TerminationOutcome::NoneTracked => Ok(()),
        TerminationOutcome::Reaped => Ok(()),
        TerminationOutcome::KillFailed(_) => Ok(()),
        TerminationOutcome::WaitFailed(_) => Ok(()),
    }
}

/// Stopping is idempotent: stopping twice in a row leaves the slot exactly
/// as stopping once does, and the second stop finds nothing to reap.
pub proof fn lemma_stop_idempotent(s: SlotState)
    ensures
        slot_after_stop(slot_after_stop(s)) == slot_after_stop(s),
        occupant(slot_after_stop(s)) is None,
{
}

/// State consistency: a successful start leaves the slot occupied by the new
/// worker, a failed start leaves it as it was, and a stop leaves it empty
/// whatever it held.
pub proof fn lemma_state_consistency(s: SlotState, outcome: SpawnOutcome)
    ensures
        (outcome matches SpawnOutcome::Launched(id) ==> slot_after_start(s, outcome)
            == SlotState::Occupied(id)),
        outcome is Refused ==> slot_after_start(s, outcome) == s,
        slot_after_stop(s) is Empty,
{
}

/// Starting over an occupied slot replaces the tracked reference with the
/// new worker; the previous worker is not stopped or joined, by design.
pub proof fn lemma_start_overwrites(prev: ProcessId, next: ProcessId)
    ensures
        slot_after_start(SlotState::Occupied(prev), SpawnOutcome::Launched(next))
            == SlotState::Occupied(next),
{
}

} // verus!
