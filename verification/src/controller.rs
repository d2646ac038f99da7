//! Capture controller: owns the shared run-state flag and enforces that at
//! most one capture worker runs at a time. The UI shell drives it through
//! `start`, `stop` and `status`, and mirrors the run state into whatever
//! synchronization primitive carries it to the worker thread.

use vstd::prelude::*;

verus! {

/// The messages a UI shell sends the control loop.
#[derive(Debug, Clone, Copy, PartialEq, Eq, Structural)]
pub enum Message {
    Start,
    Stop,
    File,
}

/// Whether a capture session is live. The single piece of state shared
/// between the controller and the worker.
#[derive(Debug, Clone, Copy, PartialEq, Eq, Structural)]
pub enum RunState {
    Stopped,
    Running,
}

/// An immutable snapshot of the capture configuration, taken at `start`.
#[derive(Debug, Clone, PartialEq, Eq)]
pub struct CaptureConfig {
    /// The serial device to open, as the platform names it.
    pub device_identifier: String,
    /// The baud rate to open it at. Validation is advisory: any numeric rate
    /// is accepted at this level.
    pub baud_rate: u32,
    /// The log file to append to, opened in append-plus-create mode.
    pub output_path: String,
}

impl CaptureConfig {
    /// A usable configuration names a device and an output path.
    pub open spec fn spec_valid(self) -> bool {
        self.device_identifier@.len() > 0 && self.output_path@.len() > 0
    }

    /// Decides whether the configuration is usable.
    pub fn valid(&self) -> (r: bool)
        ensures
            r == self.spec_valid(),
    {
        self.device_identifier.as_str().unicode_len() > 0 && self.output_path.as_str().unicode_len()
            > 0
    }
}

/// The standard baud rates offered for display. Advisory only: the engine
/// accepts any numeric rate, so validation against this list belongs to the
/// UI layer.
pub fn recognized_baud_rates() -> (r: Vec<u32>)
    ensures
        r@ == seq![1200u32, 9600u32, 19200u32, 115200u32],
{
    let mut rates: Vec<u32> = Vec::new();
    rates.push(1200);
    rates.push(9600);
    rates.push(19200);
    rates.push(115200);
    proof {
        assert(rates@ =~= seq![1200u32, 9600u32, 19200u32, 115200u32]);
    }
    rates
}

/// `start` failed synchronously and no worker was spawned.
#[derive(Debug, Clone, Copy, PartialEq, Eq, Structural)]
pub enum StartError {
    /// Missing output path or unresolvable device.
    InvalidConfig,
}

/// What a successful `start` did.
#[derive(Debug, Clone, Copy, PartialEq, Eq, Structural)]
pub enum StartOutcome {
    /// The run state was flipped to Running; the caller must now construct a
    /// worker with a snapshot of the configuration and run it.
    Started,
    /// A session was already live; nothing changed.
    AlreadyRunning,
}

/// The capture controller. Its only state is the run-state flag.
pub struct Controller {
    run_state: RunState,
}

impl Controller {
    /// The current run state.
    pub closed spec fn spec_status(self) -> RunState {
        self.run_state
    }

    /// A fresh controller with no session running.
    pub fn new() -> (r: Controller)
        ensures
            r.spec_status() == RunState::Stopped,
    {
        Controller { run_state: RunState::Stopped }
    }

    /// Returns the current run state, for UI affordance toggling.
    pub fn status(&self) -> (r: RunState)
        ensures
            r == self.spec_status(),
    {
        self.run_state
    }

    /// Validates the configuration and flips the run state to Running.
    /// Rejects an unusable configuration; is a no-op when a session is
    /// already live, so at most one worker ever runs. On `Started` the caller
    /// spawns a worker with an immutable snapshot of `config`.
    pub fn start(&mut self, config: &CaptureConfig) -> (r: Result<StartOutcome, StartError>)
        ensures
            !config.spec_valid() ==> r == Err::<StartOutcome, StartError>(StartError::InvalidConfig)
                && *final(self) == *old(self),
            config.spec_valid() && old(self).spec_status() == RunState::Running ==> r == Ok::<
                StartOutcome,
                StartError,
            >(StartOutcome::AlreadyRunning) && *final(self) == *old(self),
            config.spec_valid() && old(self).spec_status() == RunState::Stopped ==> r == Ok::<
                StartOutcome,
                StartError,
            >(StartOutcome::Started) && final(self).spec_status() == RunState::Running,
    {
        if !config.valid() {
            Err(StartError::InvalidConfig)
        } else if matches!(self.run_state, RunState::Running) {
            Ok(StartOutcome::AlreadyRunning)
        } else {
            self.run_state = RunState::Running;
            Ok(StartOutcome::Started)
        }
    }

    /// Flips the run state to Stopped. Idempotent: stopping an already
    /// stopped controller changes nothing. Cancellation is cooperative — the
    /// worker observes the flag on its next framing iteration; this call
    /// never blocks on it.
    pub fn stop(&mut self)
        ensures
            final(self).spec_status() == RunState::Stopped,
            old(self).spec_status() == RunState::Stopped ==> *final(self) == *old(self),
    {
        self.run_state = RunState::Stopped;
    }

    /// The worker observed a session-fatal failure and self-terminated: force
    /// the run state back to Stopped so the controller's view re-synchronizes.
    pub fn acknowledge_fatal(&mut self)
        ensures
            final(self).spec_status() == RunState::Stopped,
            old(self).spec_status() == RunState::Stopped ==> *final(self) == *old(self),
    {
        self.run_state = RunState::Stopped;
    }
}

} // verus!
