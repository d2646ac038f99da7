//! Serial capture and logging engine: a line framer that turns a raw byte
//! stream into discrete lines, a timestamp formatter, record encoding for an
//! append-only CSV log, and the start/stop state machines of a capture
//! controller and its background worker.

use vstd::prelude::*;

pub mod controller;
pub mod framer;
pub mod record;
pub mod timestamp;
pub mod worker;

pub use controller::CaptureConfig;
pub use controller::Controller;
pub use controller::recognized_baud_rates;
pub use controller::Message;
pub use controller::RunState;
pub use controller::StartError;
pub use controller::StartOutcome;
pub use framer::LineFramer;
pub use record::Record;
pub use timestamp::now;
pub use timestamp::timestamp_from_clock_parts;
pub use timestamp::Timestamp;
pub use worker::Phase;
pub use worker::SessionError;
pub use worker::StepEffect;
pub use worker::Worker;
pub use worker::WorkerEvent;

verus! {

/// The carriage-return byte that terminates a line.
pub const CR: u8 = 13;

/// The line-feed byte that the framer discards.
pub const LF: u8 = 10;

} // verus!
