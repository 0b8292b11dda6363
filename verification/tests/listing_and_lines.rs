//! Tests of listing formatting, the line reader, and the original suite's
//! environment checks.

use ftp_server::line_reader::{LineEvent, LineReader, LINE_MAX};
use ftp_server::listing::{add_file_info, format_listing, FileEntry, TS_MAX, TS_MIN};
use std::path::PathBuf;

fn entry(path: &[u8], is_dir: bool, size: u64, modified: i64) -> FileEntry {
    FileEntry { path: path.to_vec(), is_dir, readonly: false, size, modified }
}

#[test]
fn listing_of_a_file_and_a_directory() {
    let entries = vec![
        entry(b"a.txt", false, 10, 0),
        entry(b"sub", true, 0, 0),
    ];
    let out = format_listing(&entries);
    let text = String::from_utf8(out).unwrap();
    let lines: Vec<&str> = text.split("\r\n").collect();
    assert_eq!(lines.len(), 3);
    assert_eq!(lines[2], "");
    assert_eq!(lines[0], "- rw-rw-rw 1 anonymous anonymous 10 January 1 0:0 a.txt");
    assert_eq!(lines[1], "d rw-rw-rw 1 anonymous anonymous 0 January 1 0:0 sub");
}

#[test]
fn listing_line_carries_the_civil_date() {
    // 2020-10-05 12:30:00 UTC
    let mut out: Vec<u8> = Vec::new();
    add_file_info(&entry(b"/srv/root/notes.md", false, 2048, 1601901000), &mut out);
    assert_eq!(
        String::from_utf8(out).unwrap(),
        "- rw-rw-rw 1 anonymous anonymous 2048 October 5 12:30 notes.md\r\n"
    );
}

#[test]
fn listing_marks_read_only_entries() {
    let mut out: Vec<u8> = Vec::new();
    let mut e = entry(b"locked", false, 1, 0);
    e.readonly = true;
    add_file_info(&e, &mut out);
    let text = String::from_utf8(out).unwrap();
    assert!(text.starts_with("- r--r--r-- "));
}

#[test]
fn listing_skips_unrepresentable_timestamps() {
    let mut out: Vec<u8> = Vec::new();
    add_file_info(&entry(b"odd", false, 1, i64::MIN), &mut out);
    assert_eq!(out, Vec::<u8>::new());
    add_file_info(&entry(b"odd", false, 1, i64::MAX), &mut out);
    assert_eq!(out, Vec::<u8>::new());
}

#[test]
fn listing_covers_exactly_the_representable_range() {
    let mut out: Vec<u8> = Vec::new();
    add_file_info(&entry(b"min", false, 1, TS_MIN), &mut out);
    let text = String::from_utf8(out).unwrap();
    assert!(text.contains(" January 1 0:0 "));

    let mut out: Vec<u8> = Vec::new();
    add_file_info(&entry(b"max", false, 1, TS_MAX), &mut out);
    let text = String::from_utf8(out).unwrap();
    assert!(text.contains(" December 31 23:59 "));

    let mut out: Vec<u8> = Vec::new();
    add_file_info(&entry(b"under", false, 1, TS_MIN - 1), &mut out);
    add_file_info(&entry(b"over", false, 1, TS_MAX + 1), &mut out);
    assert_eq!(out, Vec::<u8>::new());
}

#[test]
fn line_reader_strips_crlf_and_leading_spaces() {
    let mut r = LineReader::new();
    let mut got = None;
    for &b in b"  noop\r\n" {
        match r.push(b) {
            LineEvent::Line(line) => got = Some(line),
            LineEvent::Pending => {}
            LineEvent::TooLong => panic!("line is short"),
        }
    }
    assert_eq!(got, Some(b"noop".to_vec()));
}

#[test]
fn line_reader_keeps_interior_cr_and_spaces() {
    let mut r = LineReader::new();
    let mut got = None;
    for &b in b"a\rb c\r\n" {
        if let LineEvent::Line(line) = r.push(b) {
            got = Some(line);
        }
    }
    assert_eq!(got, Some(b"a\rb c".to_vec()));
}

#[test]
fn line_reader_yields_empty_line_for_bare_crlf() {
    let mut r = LineReader::new();
    assert_eq!(r.push(b'\r'), LineEvent::Pending);
    assert_eq!(r.push(b'\n'), LineEvent::Line(Vec::new()));
}

#[test]
fn line_reader_refuses_endless_lines() {
    let mut r = LineReader::new();
    for _ in 0..LINE_MAX {
        assert_eq!(r.push(b'x'), LineEvent::Pending);
    }
    assert_eq!(r.push(b'y'), LineEvent::TooLong);
    // Once full, the reader keeps refusing; the connection should be dropped.
    assert_eq!(r.push(b'\r'), LineEvent::TooLong);
}

#[test]
fn test_this() {
    assert_eq!(time::Month::January as u16, 1u16);
}

#[test]
fn test_dir() {
    let b: PathBuf = PathBuf::from("/usr/bin");
    assert!(b.is_dir())
}
