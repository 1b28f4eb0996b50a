use monolog::line::frame_line;
use monolog::splitter::{LineError, LineSplitter};

#[test]
fn frames_a_line_with_one_line_feed() {
    assert_eq!(frame_line("boot_complete"), b"boot_complete\n".to_vec());
    assert_eq!(frame_line(""), b"\n".to_vec());
}

#[test]
fn hands_out_lines_across_chunks() {
    let mut splitter = LineSplitter::new();
    splitter.push(b"boot_com");
    assert_eq!(splitter.next_line(), None);
    assert_eq!(splitter.pending_len(), 8);
    splitter.push(b"plete\nwifi_up\nbat");
    assert_eq!(splitter.next_line(), Some(Ok("boot_complete".to_string())));
    assert_eq!(splitter.next_line(), Some(Ok("wifi_up".to_string())));
    assert_eq!(splitter.next_line(), None);
    assert_eq!(splitter.pending_len(), 3);
    splitter.push(b"tery_low");
    assert_eq!(splitter.last_line(), Some(Ok("battery_low".to_string())));
    assert_eq!(splitter.last_line(), None);
}

#[test]
fn reports_bytes_that_are_not_text() {
    let mut splitter = LineSplitter::new();
    splitter.push(&[0xff, 0xfe, b'\n', b'o', b'k', b'\n']);
    assert_eq!(splitter.next_line(), Some(Err(LineError::InvalidUtf8)));
    assert_eq!(splitter.next_line(), Some(Ok("ok".to_string())));
}

#[test]
fn carriage_returns_and_empty_lines_are_kept() {
    let mut splitter = LineSplitter::new();
    splitter.push(b"a\r\n\n\rb\n");
    assert_eq!(splitter.next_line(), Some(Ok("a\r".to_string())));
    assert_eq!(splitter.next_line(), Some(Ok("".to_string())));
    assert_eq!(splitter.next_line(), Some(Ok("\rb".to_string())));
    assert_eq!(splitter.next_line(), None);
    assert_eq!(splitter.pending_len(), 0);
    assert_eq!(splitter.last_line(), None);
}

#[test]
fn last_line_takes_whole_lines_first() {
    let mut splitter = LineSplitter::new();
    splitter.push(b"one\ntwo");
    assert_eq!(splitter.last_line(), Some(Ok("one".to_string())));
    assert_eq!(splitter.last_line(), Some(Ok("two".to_string())));
    assert_eq!(splitter.last_line(), None);
    splitter.push(&[0x80]);
    assert_eq!(splitter.last_line(), Some(Err(LineError::InvalidUtf8)));
    assert_eq!(splitter.pending_len(), 0);
}

#[test]
fn a_character_cut_by_a_chunk_is_put_together() {
    let bytes = "gr\u{fc}n\n".as_bytes();
    let mut splitter = LineSplitter::new();
    splitter.push(&bytes[..3]);
    assert_eq!(splitter.next_line(), None);
    splitter.push(&bytes[3..]);
    assert_eq!(splitter.next_line(), Some(Ok("gr\u{fc}n".to_string())));
}
