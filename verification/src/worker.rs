//! Capture worker: the decision core of one capture session, as a state
//! machine from events to effects. The runner (the unverified shell around
//! the library) owns the serial handle and the file handle; it performs the
//! open, read, append and sink-forwarding effects this machine asks for and
//! hands the outcomes back as events. A fresh worker is constructed for every
//! session and never reused.
//!
//! The session keeps a ghost history — the payload, clock reading and encoded
//! bytes of every completed line, in completion order — against which the
//! append-only and timestamp-ordering laws are stated.

use vstd::prelude::*;

use crate::controller::CaptureConfig;
use crate::framer::LineFramer;
use crate::record::Record;
use crate::record::record_bytes;
use crate::timestamp::Timestamp;
use crate::CR;
use crate::LF;

verus! {

/// The phase of a capture session. `OpeningDevice` and `OpeningFile` are the
/// two halves of opening; `AwaitingWriteResult` is the write sub-step of
/// streaming, entered after a completed line is handed over for appending.
#[derive(Debug, Clone, Copy, PartialEq, Eq, Structural)]
pub enum Phase {
    OpeningDevice,
    OpeningFile,
    Streaming,
    AwaitingWriteResult,
    Terminated,
}

/// The session-fatal failures. A timeout on a read is not among them: it is
/// not an error and the session just polls again.
#[derive(Debug, Clone, Copy, PartialEq, Eq, Structural)]
pub enum SessionError {
    /// The serial device could not be opened.
    DeviceOpenError,
    /// The output file could not be opened in append-plus-create mode.
    FileOpenError,
    /// A non-timeout failure while reading the device.
    DeviceReadError,
    /// An append to the output file failed. The record that triggered it is
    /// still forwarded to the sink; only durable persistence failed.
    FileWriteError,
}

/// What the runner reports to the worker. Each event answers the action the
/// current phase calls for: the outcome of an open, one poll of the run-state
/// flag and the device, or the outcome of a file append.
pub enum WorkerEvent {
    /// The serial device opened.
    DeviceOpened,
    /// The serial device could not be opened.
    DeviceOpenFailed,
    /// The output file opened in append-plus-create mode.
    FileOpened,
    /// The output file could not be opened.
    FileOpenFailed,
    /// The run-state flag read Stopped: stop gracefully.
    StopObserved,
    /// One byte arrived, with the clock reading taken as it was handled.
    ByteRead(u8, Timestamp),
    /// The bounded read timed out; not an error.
    ReadTimedOut,
    /// The read failed with a non-timeout error.
    ReadFailed,
    /// The pending file append succeeded.
    WriteSucceeded,
    /// The pending file append failed.
    WriteFailed,
}

/// What the runner must do after a step: at most one file append, one record
/// forwarded to the output sink, one error report to the sink, and possibly
/// forcing the shared run state back to Stopped.
pub struct StepEffect {
    /// Bytes to append to the log file, present exactly when a line
    /// completed.
    pub write: Option<Vec<u8>>,
    /// The completed, timestamped record to forward to the output sink,
    /// regardless of how the append then fares.
    pub forward: Option<Record>,
    /// A session-fatal failure to report to the output sink.
    pub report: Option<SessionError>,
    /// The worker self-terminated on a failure: the shared run state must be
    /// forced to Stopped so the controller's view re-synchronizes.
    pub set_stopped: bool,
}

impl StepEffect {
    /// No file append, nothing forwarded, nothing reported, run state left
    /// alone.
    pub open spec fn is_none(self) -> bool {
        &&& self.write is None
        &&& self.forward is None
        &&& self.report is None
        &&& !self.set_stopped
    }

    /// The step only reported the session-fatal failure `e`.
    pub open spec fn is_fatal_report(self, e: SessionError) -> bool {
        &&& self.write is None
        &&& self.forward is None
        &&& self.report == Some(e)
        &&& self.set_stopped
    }

    fn none() -> (r: StepEffect)
        ensures
            r.is_none(),
    {
        StepEffect { write: None, forward: None, report: None, set_stopped: false }
    }

    fn fatal(e: SessionError) -> (r: StepEffect)
        ensures
            r.is_fatal_report(e),
    {
        StepEffect { write: None, forward: None, report: Some(e), set_stopped: true }
    }
}

/// One capture session's decision core.
pub struct Worker {
    config: CaptureConfig,
    phase: Phase,
    framer: LineFramer,
    end: Option<SessionError>,
    history_stamps: Ghost<Seq<Timestamp>>,
    history_lines: Ghost<Seq<Seq<u8>>>,
    history_writes: Ghost<Seq<Seq<u8>>>,
}

impl Worker {
    /// The phase the session is in.
    pub closed spec fn spec_phase(self) -> Phase {
        self.phase
    }

    /// The configuration snapshot the session was started with.
    pub closed spec fn spec_config(self) -> CaptureConfig {
        self.config
    }

    /// The bytes of the line currently in progress.
    pub closed spec fn buffer(self) -> Seq<u8> {
        self.framer@
    }

    /// Why the session terminated; `None` while it is live and after a
    /// graceful stop.
    pub closed spec fn end_reason(self) -> Option<SessionError> {
        self.end
    }

    /// The clock reading taken as each line completed, in completion order.
    pub closed spec fn stamps(self) -> Seq<Timestamp> {
        self.history_stamps@
    }

    /// The payload of each completed line, in completion order.
    pub closed spec fn lines(self) -> Seq<Seq<u8>> {
        self.history_lines@
    }

    /// The byte chunks handed to the file for appending, in order.
    pub closed spec fn writes(self) -> Seq<Seq<u8>> {
        self.history_writes@
    }

    /// The session history is consistent: one clock reading and one appended
    /// chunk per completed line, each chunk the encoding of its line under
    /// its clock reading, and every clock reading in calendar range.
    pub closed spec fn wf(self) -> bool {
        &&& self.spec_phase() != Phase::Terminated ==> self.end_reason() is None
        &&& self.stamps().len() == self.lines().len()
        &&& self.writes().len() == self.lines().len()
        &&& forall|i: int|
            0 <= i < self.lines().len() ==> self.writes()[i] == record_bytes(
                #[trigger] self.stamps()[i],
                self.lines()[i],
            )
        &&& forall|i: int| 0 <= i < self.stamps().len() ==> (#[trigger] self.stamps()[i]).wf()
    }

    /// A fresh worker for one session: empty line buffer, empty history,
    /// about to open the device.
    pub fn new(config: CaptureConfig) -> (r: Worker)
        ensures
            r.wf(),
            r.spec_phase() == Phase::OpeningDevice,
            r.spec_config() == config,
            r.buffer() == Seq::<u8>::empty(),
            r.end_reason() == Option::<SessionError>::None,
            r.stamps() == Seq::<Timestamp>::empty(),
            r.lines() == Seq::<Seq<u8>>::empty(),
            r.writes() == Seq::<Seq<u8>>::empty(),
    {
        Worker {
            config,
            phase: Phase::OpeningDevice,
            framer: LineFramer::new(),
            end: None,
            history_stamps: Ghost(Seq::empty()),
            history_lines: Ghost(Seq::empty()),
            history_writes: Ghost(Seq::empty()),
        }
    }

    /// The phase the session is in, telling the runner what to do next:
    /// open the device, open the file, poll the flag and read a byte, report
    /// the pending append's outcome, or release the handles and end.
    pub fn phase(&self) -> (r: Phase)
        ensures
            r == self.spec_phase(),
    {
        self.phase
    }

    /// Why the session terminated, if it terminated on a failure.
    pub fn end_reason_of(&self) -> (r: Option<SessionError>)
        ensures
            r == self.end_reason(),
    {
        self.end
    }

    /// Whether `event` answers the action the current phase calls for.
    pub open spec fn event_allowed(self, event: WorkerEvent) -> bool {
        match event {
            WorkerEvent::DeviceOpened | WorkerEvent::DeviceOpenFailed => self.spec_phase()
                == Phase::OpeningDevice,
            WorkerEvent::FileOpened | WorkerEvent::FileOpenFailed => self.spec_phase()
                == Phase::OpeningFile,
            WorkerEvent::StopObserved | WorkerEvent::ByteRead(..) | WorkerEvent::ReadTimedOut
                | WorkerEvent::ReadFailed => self.spec_phase() == Phase::Streaming,
            WorkerEvent::WriteSucceeded | WorkerEvent::WriteFailed => self.spec_phase()
                == Phase::AwaitingWriteResult,
        }
    }

    /// Drives the session one step: consumes the outcome of the last action
    /// and decides the next phase and effects.
    ///
    /// Every failure path terminates the session, reports the specific
    /// failure and forces the run state to Stopped. A graceful stop and a
    /// read timeout do neither. A completed line is handed to the file and
    /// forwarded to the sink in the same step, appending exactly its encoded
    /// bytes, so records reach both in completion order; the line buffer is
    /// never flushed by a stop or a failure.
    pub fn step(&mut self, event: WorkerEvent) -> (eff: StepEffect)
        requires
            old(self).wf(),
            old(self).event_allowed(event),
            event matches WorkerEvent::ByteRead(_, ts) ==> ts.wf(),
        ensures
            final(self).wf(),
            final(self).spec_config() == old(self).spec_config(),
            match event {
                WorkerEvent::DeviceOpened => {
                    &&& final(self).spec_phase() == Phase::OpeningFile
                    &&& final(self).unchanged_but_phase(*old(self))
                    &&& eff.is_none()
                },
                WorkerEvent::DeviceOpenFailed => {
                    &&& final(self).terminated_on(*old(self), SessionError::DeviceOpenError)
                    &&& eff.is_fatal_report(SessionError::DeviceOpenError)
                },
                WorkerEvent::FileOpened => {
                    &&& final(self).spec_phase() == Phase::Streaming
                    &&& final(self).unchanged_but_phase(*old(self))
                    &&& eff.is_none()
                },
                WorkerEvent::FileOpenFailed => {
                    &&& final(self).terminated_on(*old(self), SessionError::FileOpenError)
                    &&& eff.is_fatal_report(SessionError::FileOpenError)
                },
                WorkerEvent::StopObserved => {
                    &&& final(self).spec_phase() == Phase::Terminated
                    &&& final(self).unchanged_but_phase(*old(self))
                    &&& final(self).end_reason() == Option::<SessionError>::None
                    &&& eff.is_none()
                },
                WorkerEvent::ByteRead(b, ts) => {
                    &&& final(self).same_history_as(*old(self)) <==> b != CR
                    &&& (if b == CR {
                        &&& final(self).spec_phase() == Phase::AwaitingWriteResult
                        &&& final(self).buffer() == Seq::<u8>::empty()
                        &&& final(self).stamps() == old(self).stamps().push(ts)
                        &&& final(self).lines() == old(self).lines().push(old(self).buffer())
                        &&& final(self).writes() == old(self).writes().push(
                            record_bytes(ts, old(self).buffer()),
                        )
                        &&& (eff.write matches Some(w) && w@ == record_bytes(
                            ts,
                            old(self).buffer(),
                        ))
                        &&& (eff.forward matches Some(rec) && rec.timestamp == ts && rec.payload@
                            == old(self).buffer())
                        &&& eff.report is None
                        &&& !eff.set_stopped
                    } else {
                        &&& final(self).spec_phase() == Phase::Streaming
                        &&& final(self).buffer() == (if b == LF {
                            old(self).buffer()
                        } else {
                            old(self).buffer().push(b)
                        })
                        &&& eff.is_none()
                    })
                    &&& final(self).end_reason() == old(self).end_reason()
                },
                WorkerEvent::ReadTimedOut => {
                    &&& final(self).spec_phase() == Phase::Streaming
                    &&& final(self).unchanged_but_phase(*old(self))
                    &&& eff.is_none()
                },
                WorkerEvent::ReadFailed => {
                    &&& final(self).terminated_on(*old(self), SessionError::DeviceReadError)
                    &&& eff.is_fatal_report(SessionError::DeviceReadError)
                },
                WorkerEvent::WriteSucceeded => {
                    &&& final(self).spec_phase() == Phase::Streaming
                    &&& final(self).unchanged_but_phase(*old(self))
                    &&& eff.is_none()
                },
                WorkerEvent::WriteFailed => {
                    &&& final(self).terminated_on(*old(self), SessionError::FileWriteError)
                    &&& eff.is_fatal_report(SessionError::FileWriteError)
                },
            },
    {
        match event {
            WorkerEvent::DeviceOpened => {
                self.phase = Phase::OpeningFile;
                StepEffect::none()
            },
            WorkerEvent::DeviceOpenFailed => {
                self.phase = Phase::Terminated;
                self.end = Some(SessionError::DeviceOpenError);
                StepEffect::fatal(SessionError::DeviceOpenError)
            },
            WorkerEvent::FileOpened => {
                self.phase = Phase::Streaming;
                StepEffect::none()
            },
            WorkerEvent::FileOpenFailed => {
                self.phase = Phase::Terminated;
                self.end = Some(SessionError::FileOpenError);
                StepEffect::fatal(SessionError::FileOpenError)
            },
            WorkerEvent::StopObserved => {
                self.phase = Phase::Terminated;
                StepEffect::none()
            },
            WorkerEvent::ByteRead(b, ts) => {
                match self.framer.feed(b) {
                    Some(line) => {
                        let rec = Record { timestamp: ts, payload: line };
                        let encoded = rec.encode();
                        proof {
                            self.history_stamps@ = self.history_stamps@.push(ts);
                            self.history_lines@ = self.history_lines@.push(rec.payload@);
                            self.history_writes@ = self.history_writes@.push(encoded@);
                        }
                        self.phase = Phase::AwaitingWriteResult;
                        StepEffect {
                            write: Some(encoded),
                            forward: Some(rec),
                            report: None,
                            set_stopped: false,
                        }
                    },
                    None => StepEffect::none(),
                }
            },
            WorkerEvent::ReadTimedOut => StepEffect::none(),
            WorkerEvent::ReadFailed => {
                self.phase = Phase::Terminated;
                self.end = Some(SessionError::DeviceReadError);
                StepEffect::fatal(SessionError::DeviceReadError)
            },
            WorkerEvent::WriteSucceeded => {
                self.phase = Phase::Streaming;
                StepEffect::none()
            },
            WorkerEvent::WriteFailed => {
                self.phase = Phase::Terminated;
                self.end = Some(SessionError::FileWriteError);
                StepEffect::fatal(SessionError::FileWriteError)
            },
        }
    }

    /// Everything but the phase is as in `pre`.
    pub open spec fn unchanged_but_phase(self, pre: Worker) -> bool {
        &&& self.buffer() == pre.buffer()
        &&& self.end_reason() == pre.end_reason()
        &&& self.same_history_as(pre)
    }

    /// The session history is as in `pre`.
    pub open spec fn same_history_as(self, pre: Worker) -> bool {
        &&& self.stamps() == pre.stamps()
        &&& self.lines() == pre.lines()
        &&& self.writes() == pre.writes()
    }

    /// The session terminated on the failure `e`, leaving buffer and history
    /// as they were — no partial line is flushed.
    pub open spec fn terminated_on(self, pre: Worker, e: SessionError) -> bool {
        &&& self.spec_phase() == Phase::Terminated
        &&& self.end_reason() == Some(e)
        &&& self.buffer() == pre.buffer()
        &&& self.same_history_as(pre)
    }
}

/// Append-only invariant: a session only ever appends. Against a file that
/// held `pre` beforehand and to which each handed-over chunk was appended in
/// order, the file's first bytes are still exactly `pre`, and what follows is
/// exactly the encodings of the session's completed lines, each under the
/// clock reading taken as it completed, in completion order.
pub proof fn lemma_append_only(w: Worker, pre: Seq<u8>)
    requires
        w.wf(),
    ensures
        (pre + w.writes().flatten()).subrange(0, pre.len() as int) == pre,
        w.writes().flatten() == Seq::new(
            w.lines().len(),
            |i: int| record_bytes(w.stamps()[i], w.lines()[i]),
        ).flatten(),
{
    assert((pre + w.writes().flatten()).subrange(0, pre.len() as int) =~= pre);
    assert(w.writes() =~= Seq::new(
        w.lines().len(),
        |i: int| record_bytes(w.stamps()[i], w.lines()[i]),
    ));
}

/// Timestamp monotonicity: the records a session forwards and writes carry
/// the clock readings in its history, so within a session whose successive
/// clock readings never stepped backwards, a later record's timestamp is
/// never earlier than an earlier record's.
pub proof fn lemma_timestamp_monotonicity(w: Worker, i: int, j: int)
    requires
        w.wf(),
        0 <= i <= j < w.stamps().len(),
        forall|k: int|
            0 <= k < w.stamps().len() - 1 ==> (#[trigger] w.stamps()[k]).spec_le(
                w.stamps()[k + 1],
            ),
    ensures
        w.stamps()[i].spec_le(w.stamps()[j]),
    decreases j - i,
{
    if i == j {
        crate::timestamp::lemma_le_reflexive(w.stamps()[i]);
    } else {
        lemma_timestamp_monotonicity(w, i, j - 1);
        assert(w.stamps()[j - 1].spec_le(w.stamps()[j]));
        crate::timestamp::lemma_le_transitive(w.stamps()[i], w.stamps()[j - 1], w.stamps()[j]);
    }
}

} // verus!
