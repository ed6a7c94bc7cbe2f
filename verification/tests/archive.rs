use reveleitor::archive::{open_archive, read_from_zip, try_read_from_zip, zip_candidates, ContestIOError};
use std::io::{Cursor, Write};
use zip::write::{SimpleFileOptions, ZipWriter};

fn build_zip(files: &[(&str, &[u8])]) -> Vec<u8> {
    let mut w = ZipWriter::new(Cursor::new(Vec::new()));
    for (name, data) in files {
        w.start_file(*name, SimpleFileOptions::default()).unwrap();
        w.write_all(data).unwrap();
    }
    w.finish().unwrap().into_inner()
}

fn info(e: ContestIOError) -> String {
    match e {
        ContestIOError::Info(m) => m,
        ContestIOError::IO(e) => panic!("unexpected io error {:?}", e),
    }
}

#[test]
fn candidates_in_order() {
    assert_eq!(
        zip_candidates("runs"),
        vec!["runs", "./runs", "./sample/runs", "sample/runs"]
    );
}

#[test]
fn reads_file_at_root() {
    let data = build_zip(&[("time", b"123"), ("runs", b"1 2 3")]);
    let mut zip = open_archive(data).unwrap();
    assert_eq!(read_from_zip(&mut zip, "time").unwrap(), "123");
    assert_eq!(read_from_zip(&mut zip, "runs").unwrap(), "1 2 3");
}

#[test]
fn reads_file_under_sample() {
    let data = build_zip(&[("./sample/contest", b"C"), ("sample/runs", b"R")]);
    let mut zip = open_archive(data).unwrap();
    assert_eq!(read_from_zip(&mut zip, "contest").unwrap(), "C");
    assert_eq!(read_from_zip(&mut zip, "runs").unwrap(), "R");
}

#[test]
fn root_wins_over_sample() {
    let data = build_zip(&[("sample/time", b"late"), ("time", b"early")]);
    let mut zip = open_archive(data).unwrap();
    assert_eq!(read_from_zip(&mut zip, "time").unwrap(), "early");
}

#[test]
fn missing_file_reports_last_place() {
    let data = build_zip(&[("other", b"x")]);
    let mut zip = open_archive(data).unwrap();
    let m = info(read_from_zip(&mut zip, "time").unwrap_err());
    assert_eq!(m, "Could not unpack file: sample/time FileNotFound");
}

#[test]
fn single_place_missing() {
    let data = build_zip(&[("other", b"x")]);
    let mut zip = open_archive(data).unwrap();
    let m = info(try_read_from_zip(&mut zip, "time").unwrap_err());
    assert_eq!(m, "Could not unpack file: time FileNotFound");
}

#[test]
fn invalid_utf8_is_reported() {
    let data = build_zip(&[("sample/time", &[0xff, 0xfe, 0x00])]);
    let mut zip = open_archive(data).unwrap();
    let m = info(read_from_zip(&mut zip, "time").unwrap_err());
    assert_eq!(m, "Could not parse to UTF8");
}

#[test]
fn not_an_archive() {
    let err = open_archive(b"definitely not a zip file".to_vec()).err().unwrap();
    let m = info(err);
    assert!(m.starts_with("Could not open zipfile: "), "{}", m);
}

#[test]
fn reads_file_under_dot_slash() {
    let data = build_zip(&[("./time", b"77")]);
    let mut zip = open_archive(data).unwrap();
    assert_eq!(read_from_zip(&mut zip, "time").unwrap(), "77");
}

#[test]
fn only_last_place_holds_file() {
    let data = build_zip(&[("sample/runs", b"abc")]);
    let mut zip = open_archive(data).unwrap();
    assert_eq!(read_from_zip(&mut zip, "runs").unwrap(), "abc");
}

#[test]
fn whole_file_untrimmed() {
    let data = build_zip(&[("contest", b"  line one\nline two\n ")]);
    let mut zip = open_archive(data).unwrap();
    assert_eq!(try_read_from_zip(&mut zip, "contest").unwrap(), "  line one\nline two\n ");
}

#[test]
fn invalid_utf8_at_root_falls_through() {
    let data = build_zip(&[("time", &[0xff]), ("./sample/time", b"ok")]);
    let mut zip = open_archive(data).unwrap();
    assert_eq!(read_from_zip(&mut zip, "time").unwrap(), "ok");
    let m = info(try_read_from_zip(&mut zip, "time").unwrap_err());
    assert_eq!(m, "Could not parse to UTF8");
}
