use serial_logger::CaptureConfig;
use serial_logger::Phase;
use serial_logger::Record;
use serial_logger::SessionError;
use serial_logger::Timestamp;
use serial_logger::Worker;
use serial_logger::WorkerEvent;

const CR: u8 = 13;
const LF: u8 = 10;

fn config() -> CaptureConfig {
    CaptureConfig {
        device_identifier: "ttyUSB0".to_string(),
        baud_rate: 115200,
        output_path: "log.csv".to_string(),
    }
}

fn ts(second: u8) -> Timestamp {
    Timestamp::new(2024, 6, 15, 12, 0, second).unwrap()
}

/// Runs one session: opens device and file, feeds `bytes` stamped with
/// `stamp`, appends every handed-over chunk to `file`, then stops. Returns
/// the records forwarded to the sink.
fn run_session(bytes: &[u8], stamp: Timestamp, file: &mut Vec<u8>) -> Vec<Record> {
    let mut w = Worker::new(config());
    let mut sink = Vec::new();
    assert_eq!(w.phase(), Phase::OpeningDevice);
    let eff = w.step(WorkerEvent::DeviceOpened);
    assert!(eff.write.is_none() && eff.report.is_none());
    assert_eq!(w.phase(), Phase::OpeningFile);
    let eff = w.step(WorkerEvent::FileOpened);
    assert!(eff.write.is_none() && eff.report.is_none());
    for &b in bytes {
        assert_eq!(w.phase(), Phase::Streaming);
        let eff = w.step(WorkerEvent::ByteRead(b, stamp));
        if let Some(chunk) = eff.write {
            file.extend_from_slice(&chunk);
            sink.push(eff.forward.expect("a completed line is always forwarded"));
            assert_eq!(w.phase(), Phase::AwaitingWriteResult);
            let eff = w.step(WorkerEvent::WriteSucceeded);
            assert!(eff.write.is_none() && eff.report.is_none());
        }
    }
    assert_eq!(w.phase(), Phase::Streaming);
    let eff = w.step(WorkerEvent::StopObserved);
    assert!(eff.write.is_none() && eff.report.is_none() && !eff.set_stopped);
    assert_eq!(w.phase(), Phase::Terminated);
    assert_eq!(w.end_reason_of(), None);
    sink
}

#[test]
fn scenario_device_open_failure() {
    // An unreachable device: the worker reports the open error, asks for the
    // run state to be forced to Stopped, and never touches the file.
    let mut w = Worker::new(config());
    let eff = w.step(WorkerEvent::DeviceOpenFailed);
    assert_eq!(eff.report, Some(SessionError::DeviceOpenError));
    assert!(eff.set_stopped);
    assert!(eff.write.is_none() && eff.forward.is_none());
    assert_eq!(w.phase(), Phase::Terminated);
    assert_eq!(w.end_reason_of(), Some(SessionError::DeviceOpenError));
}

#[test]
fn scenario_stop_discards_unterminated_bytes() {
    // One completed line, then a stop while unterminated bytes are pending:
    // the file holds exactly one record, the trailing bytes are never
    // written.
    let mut file = Vec::new();
    let mut w = Worker::new(config());
    w.step(WorkerEvent::DeviceOpened);
    w.step(WorkerEvent::FileOpened);
    for &b in &[b'h', b'i', CR] {
        let eff = w.step(WorkerEvent::ByteRead(b, ts(7)));
        if let Some(chunk) = eff.write {
            file.extend_from_slice(&chunk);
            w.step(WorkerEvent::WriteSucceeded);
        }
    }
    let eff = w.step(WorkerEvent::ByteRead(b'x', ts(8)));
    assert!(eff.write.is_none());
    let eff = w.step(WorkerEvent::ByteRead(b'y', ts(8)));
    assert!(eff.write.is_none());
    let eff = w.step(WorkerEvent::StopObserved);
    assert!(eff.write.is_none());
    assert_eq!(w.phase(), Phase::Terminated);
    assert_eq!(file, b"2024-06-15,12:00:07,hi\n".to_vec());
}

#[test]
fn scenario_two_sessions_append() {
    // Two consecutive sessions against the same output path: the second
    // session's open does not truncate the first's record, and the file ends
    // with exactly the two records in session order.
    let mut file = Vec::new();
    let sink1 = run_session(&[b'o', b'n', b'e', CR], ts(1), &mut file);
    let first = file.clone();
    let sink2 = run_session(&[b't', b'w', b'o', CR], ts(2), &mut file);
    assert_eq!(sink1.len(), 1);
    assert_eq!(sink2.len(), 1);
    assert_eq!(&file[..first.len()], &first[..]);
    assert_eq!(
        file,
        b"2024-06-15,12:00:01,one\n2024-06-15,12:00:02,two\n".to_vec()
    );
}

#[test]
fn timeouts_are_not_errors() {
    let mut w = Worker::new(config());
    w.step(WorkerEvent::DeviceOpened);
    w.step(WorkerEvent::FileOpened);
    let eff = w.step(WorkerEvent::ReadTimedOut);
    assert!(eff.report.is_none() && !eff.set_stopped);
    assert_eq!(w.phase(), Phase::Streaming);
    let eff = w.step(WorkerEvent::ByteRead(CR, ts(3)));
    assert!(eff.write.is_some());
}

#[test]
fn file_open_failure_is_fatal() {
    let mut w = Worker::new(config());
    w.step(WorkerEvent::DeviceOpened);
    let eff = w.step(WorkerEvent::FileOpenFailed);
    assert_eq!(eff.report, Some(SessionError::FileOpenError));
    assert!(eff.set_stopped);
    assert_eq!(w.end_reason_of(), Some(SessionError::FileOpenError));
}

#[test]
fn read_failure_is_fatal() {
    let mut w = Worker::new(config());
    w.step(WorkerEvent::DeviceOpened);
    w.step(WorkerEvent::FileOpened);
    let eff = w.step(WorkerEvent::ReadFailed);
    assert_eq!(eff.report, Some(SessionError::DeviceReadError));
    assert!(eff.set_stopped);
    assert_eq!(w.end_reason_of(), Some(SessionError::DeviceReadError));
}

#[test]
fn write_failure_is_fatal_but_record_was_forwarded() {
    let mut w = Worker::new(config());
    w.step(WorkerEvent::DeviceOpened);
    w.step(WorkerEvent::FileOpened);
    let eff = w.step(WorkerEvent::ByteRead(CR, ts(4)));
    // The record reaches the sink before the append's fate is known.
    let rec = eff.forward.expect("forwarded regardless of writer outcome");
    assert_eq!(rec.payload, Vec::<u8>::new());
    let eff = w.step(WorkerEvent::WriteFailed);
    assert_eq!(eff.report, Some(SessionError::FileWriteError));
    assert!(eff.set_stopped);
    assert_eq!(w.end_reason_of(), Some(SessionError::FileWriteError));
}

#[test]
fn records_carry_line_order_and_stamps() {
    let mut file = Vec::new();
    let sink = run_session(&[b'a', CR, LF, b'b', CR], ts(9), &mut file);
    assert_eq!(sink.len(), 2);
    assert_eq!(sink[0].payload, b"a".to_vec());
    assert_eq!(sink[1].payload, b"b".to_vec());
    assert!(sink[0].timestamp.le(&sink[1].timestamp));
    assert_eq!(
        file,
        b"2024-06-15,12:00:09,a\n2024-06-15,12:00:09,b\n".to_vec()
    );
}
