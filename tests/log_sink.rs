use tray_console::error_report::{error_file_name, error_stamp, error_text};
use tray_console::log_sink::{REPLAY_FOOTER, REPLAY_HEADER};
use tray_console::LogSink;

#[test]
fn empty_sink_replays_header_and_footer() {
    let sink = LogSink::new();
    assert_eq!(sink.len(), 0);
    let mut out = Vec::new();
    sink.replay(&mut out);
    let expected = [REPLAY_HEADER.as_bytes(), REPLAY_FOOTER.as_bytes()].concat();
    assert_eq!(out, expected);
    assert_eq!(REPLAY_HEADER, "===== buffered log output =====\n");
    assert_eq!(REPLAY_FOOTER, "===== end of buffered log output =====\n");
}

#[test]
fn replay_is_verbatim_and_appends_to_output() {
    let mut sink = LogSink::new();
    sink.append(b"one ");
    sink.append(b"");
    sink.append(&[0u8, 255, 10]);
    sink.append(b"two");
    assert_eq!(sink.len(), 10);
    let mut out = b"prior".to_vec();
    sink.replay(&mut out);
    let expected = [b"prior".as_slice(), REPLAY_HEADER.as_bytes(), b"one \x00\xff\ntwo", REPLAY_FOOTER.as_bytes()].concat();
    assert_eq!(out, expected);
    // the sink keeps its bytes
    assert_eq!(sink.contents(), b"one \x00\xff\ntwo");
}

#[test]
fn replay_twice_gives_same_bytes() {
    let mut sink = LogSink::new();
    sink.append(b"x");
    let mut a = Vec::new();
    let mut b = Vec::new();
    sink.replay(&mut a);
    sink.replay(&mut b);
    assert_eq!(a, b);
}

#[test]
fn lines_get_a_newline() {
    let mut sink = LogSink::new();
    sink.append_line(b"");
    sink.append_line(b"abc");
    assert_eq!(sink.contents(), b"\nabc\n");
}

#[test]
fn error_file_name_and_text() {
    assert_eq!(error_file_name("20240131_235959"), "error_20240131_235959.log");
    assert_eq!(error_text("console busy"), "Error in window_proc: console busy\n");
    assert_eq!(error_text(""), "Error in window_proc: \n");
}

#[test]
fn error_stamp_is_zero_padded() {
    assert_eq!(error_stamp(2024, 1, 31, 23, 59, 59), "20240131_235959");
    assert_eq!(error_stamp(987, 2, 3, 4, 5, 6), "09870203_040506");
    assert_eq!(error_stamp(0, 0, 0, 0, 0, 0), "00000000_000000");
    assert_eq!(error_stamp(9999, 12, 31, 0, 0, 60).len(), 15);
    assert_eq!(error_file_name(&error_stamp(2025, 10, 9, 8, 7, 6)), "error_20251009_080706.log");
}

#[test]
fn many_appends_replay_as_one_run() {
    let mut sink = LogSink::new();
    sink.append(b"before\n");
    let mut joined = Vec::new();
    for i in 0..200u32 {
        let line = format!("line {}", i);
        sink.append_line(line.as_bytes());
        joined.extend_from_slice(line.as_bytes());
        joined.push(b'\n');
    }
    let mut out = Vec::new();
    sink.replay(&mut out);
    let start = REPLAY_HEADER.len() + b"before\n".len();
    assert_eq!(&out[start..start + joined.len()], joined.as_slice());
    assert!(out.ends_with(REPLAY_FOOTER.as_bytes()));
}
