use serial_logger::LineFramer;

const CR: u8 = 13;
const LF: u8 = 10;

#[test]
fn single_line_completes_on_cr() {
    let mut f = LineFramer::new();
    assert_eq!(f.feed(b'a'), None);
    assert_eq!(f.feed(b'b'), None);
    let line = f.feed(CR);
    assert_eq!(line, Some(vec![b'a', b'b']));
}

#[test]
fn line_feed_is_discarded() {
    let mut f = LineFramer::new();
    assert_eq!(f.feed(b'a'), None);
    assert_eq!(f.feed(LF), None);
    assert_eq!(f.feed(b'b'), None);
    assert_eq!(f.feed(CR), Some(vec![b'a', b'b']));
}

#[test]
fn cr_on_empty_buffer_yields_empty_line() {
    let mut f = LineFramer::new();
    assert_eq!(f.feed(CR), Some(vec![]));
    assert_eq!(f.feed(CR), Some(vec![]));
}

#[test]
fn scenario_crlf_device() {
    // "abc" + CR + "def" + LF + CR yields "abc" then "def": the LF before
    // the second CR is dropped, leaving "def" intact.
    let mut f = LineFramer::new();
    let input = vec![b'a', b'b', b'c', CR, b'd', b'e', b'f', LF, CR];
    let lines = f.feed_all(&input);
    assert_eq!(lines, vec![b"abc".to_vec(), b"def".to_vec()]);
}

#[test]
fn line_count_equals_cr_count() {
    let mut f = LineFramer::new();
    let input = vec![CR, b'x', CR, LF, LF, b'y', b'z', CR, b'w'];
    let lines = f.feed_all(&input);
    assert_eq!(lines.len(), 3);
    assert_eq!(lines, vec![b"".to_vec(), b"x".to_vec(), b"yz".to_vec()]);
}

#[test]
fn unterminated_bytes_stay_buffered() {
    let mut f = LineFramer::new();
    let lines = f.feed_all(&vec![b'p', b'q']);
    assert!(lines.is_empty());
    // The buffered bytes appear only once a carriage return arrives.
    assert_eq!(f.feed(CR), Some(vec![b'p', b'q']));
}

#[test]
fn bare_lf_never_completes_a_line() {
    let mut f = LineFramer::new();
    let lines = f.feed_all(&vec![b'a', LF, b'b', LF]);
    assert!(lines.is_empty());
}

#[test]
fn feed_all_spans_partial_lines() {
    let mut f = LineFramer::new();
    assert!(f.feed_all(&vec![b'a', b'b']).is_empty());
    let lines = f.feed_all(&vec![b'c', CR, b'd']);
    assert_eq!(lines, vec![b"abc".to_vec()]);
    assert_eq!(f.feed(CR), Some(vec![b'd']));
}
