use lapce_rust::archive::{
    extract_server, gunzip_server, is_server_entry, scan_entries, unzip_server, ExtractError, Scan,
};
use lapce_rust::target::ArchiveKind;
use std::io::Write;

fn gz(data: &[u8]) -> Vec<u8> {
    let mut enc = flate2::write::GzEncoder::new(Vec::new(), flate2::Compression::default());
    enc.write_all(data).unwrap();
    enc.finish().unwrap()
}

fn zipped(entries: &[(&str, &[u8])]) -> Vec<u8> {
    let mut w = zip::ZipWriter::new(std::io::Cursor::new(Vec::new()));
    for (name, data) in entries {
        w.start_file(name.to_string(), zip::write::SimpleFileOptions::default()).unwrap();
        w.write_all(data).unwrap();
    }
    w.finish().unwrap().into_inner()
}

#[test]
fn gzip_stream_is_unpacked() {
    let packed = gz(b"\x7fELF server bytes");
    assert_ne!(packed, b"\x7fELF server bytes".to_vec());
    assert_eq!(gunzip_server(&packed), Ok(b"\x7fELF server bytes".to_vec()));
}

#[test]
fn empty_gzip_stream_is_an_empty_executable() {
    assert_eq!(gunzip_server(&gz(b"")), Ok(Vec::new()));
}

#[test]
fn large_gzip_stream_is_unpacked_whole() {
    let mut data = Vec::new();
    for i in 0..200_000u32 {
        data.push((i % 251) as u8);
    }
    assert_eq!(gunzip_server(&gz(&data)), Ok(data));
}

#[test]
fn broken_gzip_stream_is_unreadable() {
    assert_eq!(gunzip_server(&b"not gzip at all".to_vec()), Err(ExtractError::Unreadable));
    assert_eq!(gunzip_server(&Vec::new()), Err(ExtractError::Unreadable));
    let mut cut = gz(b"some longer content that will be cut short");
    cut.truncate(cut.len() - 6);
    assert_eq!(gunzip_server(&cut), Err(ExtractError::Unreadable));
}

#[test]
fn server_entries_are_known_by_their_suffix() {
    assert!(is_server_entry("rust-analyzer.exe"));
    assert!(is_server_entry("rust-analyzer-x86_64-pc-windows-msvc/rust-analyzer.exe"));
    assert!(is_server_entry("my-rust-analyzer.exe"));
    assert!(!is_server_entry("rust-analyzer.pdb"));
    assert!(!is_server_entry("rust-analyzer.exe.sha256"));
    assert!(!is_server_entry("rust-analyzer"));
    assert!(!is_server_entry(""));
}

#[test]
fn zip_entry_is_found_and_unpacked() {
    let packed = zipped(&[
        ("README.md", b"read me"),
        ("rust-analyzer.pdb", b"symbols"),
        ("rust-analyzer.exe", b"MZ server"),
    ]);
    assert_eq!(scan_entries(&packed, 3), Scan::Found(2));
    assert_eq!(unzip_server(&packed), Ok(b"MZ server".to_vec()));
}

#[test]
fn first_matching_zip_entry_wins() {
    let packed = zipped(&[
        ("a/rust-analyzer.exe", b"first"),
        ("b/rust-analyzer.exe", b"second"),
    ]);
    assert_eq!(scan_entries(&packed, 2), Scan::Found(0));
    assert_eq!(unzip_server(&packed), Ok(b"first".to_vec()));
}

#[test]
fn scan_looks_only_at_the_entries_asked_for() {
    let packed = zipped(&[("README.md", b"read me"), ("rust-analyzer.exe", b"MZ")]);
    assert_eq!(scan_entries(&packed, 0), Scan::Missing);
    assert_eq!(scan_entries(&packed, 1), Scan::Missing);
    assert_eq!(scan_entries(&packed, 2), Scan::Found(1));
}

#[test]
fn scan_stops_at_an_entry_that_cannot_be_opened() {
    let packed = zipped(&[("README.md", b"read me")]);
    assert_eq!(scan_entries(&packed, 2), Scan::Broken);
    assert_eq!(scan_entries(&b"garbage".to_vec(), 1), Scan::Broken);
}

#[test]
fn zip_without_the_server_is_missing_it() {
    let packed = zipped(&[("README.md", b"read me"), ("rust-analyzer", b"elf")]);
    assert_eq!(unzip_server(&packed), Err(ExtractError::EntryMissing));
    assert_eq!(unzip_server(&zipped(&[])), Err(ExtractError::EntryMissing));
}

#[test]
fn broken_zip_is_unreadable() {
    assert_eq!(unzip_server(&b"PK but not really".to_vec()), Err(ExtractError::Unreadable));
    assert_eq!(unzip_server(&Vec::new()), Err(ExtractError::Unreadable));
    assert_eq!(unzip_server(&gz(b"MZ server")), Err(ExtractError::Unreadable));
}

#[test]
fn extraction_goes_by_the_archive_kind() {
    let z = zipped(&[("rust-analyzer.exe", b"MZ server")]);
    let g = gz(b"\x7fELF server");
    assert_eq!(extract_server(ArchiveKind::Zip, &z), Ok(b"MZ server".to_vec()));
    assert_eq!(extract_server(ArchiveKind::Gzip, &g), Ok(b"\x7fELF server".to_vec()));
    assert_eq!(extract_server(ArchiveKind::Gzip, &z), Err(ExtractError::Unreadable));
    assert_eq!(extract_server(ArchiveKind::Zip, &g), Err(ExtractError::Unreadable));
}
