use crate::target::ArchiveKind;
use crate::text::{ends_with, is_suffix};
use vstd::prelude::*;

verus! {

/// What `flate2`'s gzip reader yields for a stream: the decompressed bytes,
/// or `None` where reading the stream ends in an error.
pub uninterp spec fn gzip_decoded(bytes: Seq<u8>) -> Option<Seq<u8>>;

/// How many entries `zip` finds in an archive, or `None` where it cannot
/// open the archive.
pub uninterp spec fn zip_entry_count(bytes: Seq<u8>) -> Option<nat>;

/// The name of an archive's entry as `zip` reports it, or `None` where the
/// archive or the entry cannot be opened or the name cannot be read.
pub uninterp spec fn zip_entry_name(bytes: Seq<u8>, index: nat) -> Option<Seq<char>>;

/// The unpacked content of an archive's entry as `zip` reads it, or `None`
/// where the archive or the entry cannot be opened or read to its end.
pub uninterp spec fn zip_entry_data(bytes: Seq<u8>, index: nat) -> Option<Seq<u8>>;

/// Reads a gzip stream to its end with `flate2::read::GzDecoder`. The
/// contract only gives the outcome its name, `gzip_decoded`.
#[verifier::external_body]
fn gunzip(bytes: &Vec<u8>) -> (r: Option<Vec<u8>>)
    ensures
        match r {
            Some(out) => gzip_decoded(bytes@) == Some(out@),
            None => gzip_decoded(bytes@) is None,
        },
{
    let mut out = Vec::new();
    let mut decoder = flate2::read::GzDecoder::new(bytes.as_slice());
    match std::io::Read::read_to_end(&mut decoder, &mut out) {
        Ok(_) => Some(out),
        Err(_) => None,
    }
}

/// Opens an archive with `zip::ZipArchive::new` and asks it for `len`. The
/// contract only gives the outcome its name, `zip_entry_count`.
#[verifier::external_body]
fn zip_len(bytes: &Vec<u8>) -> (r: Option<usize>)
    ensures
        match r {
            Some(n) => zip_entry_count(bytes@) == Some(n as nat),
            None => zip_entry_count(bytes@) is None,
        },
{
    match zip::ZipArchive::new(std::io::Cursor::new(bytes.as_slice())) {
        Ok(a) => Some(a.len()),
        Err(_) => None,
    }
}

/// Opens an archive's entry with `zip::ZipArchive::by_index` and asks it for
/// `name`. The contract only gives the outcome its name, `zip_entry_name`.
#[verifier::external_body]
fn zip_name_at(bytes: &Vec<u8>, index: usize) -> (r: Option<String>)
    ensures
        match r {
            Some(s) => zip_entry_name(bytes@, index as nat) == Some(s@),
            None => zip_entry_name(bytes@, index as nat) is None,
        },
{
    match zip::ZipArchive::new(std::io::Cursor::new(bytes.as_slice())) {
        Ok(mut a) => match a.by_index(index) {
            Ok(f) => match f.name() {
                Ok(n) => Some(n.into_owned()),
                Err(_) => None,
            },
            Err(_) => None,
        },
        Err(_) => None,
    }
}

/// Opens an archive's entry with `zip::ZipArchive::by_index` and reads it to
/// its end. The contract only gives the outcome its name, `zip_entry_data`.
#[verifier::external_body]
fn zip_data_at(bytes: &Vec<u8>, index: usize) -> (r: Option<Vec<u8>>)
    ensures
        match r {
            Some(out) => zip_entry_data(bytes@, index as nat) == Some(out@),
            None => zip_entry_data(bytes@, index as nat) is None,
        },
{
    let mut out = Vec::new();
    match zip::ZipArchive::new(std::io::Cursor::new(bytes.as_slice())) {
        Ok(mut a) => match a.by_index(index) {
            Ok(mut f) => match std::io::Read::read_to_end(&mut f, &mut out) {
                Ok(_) => Some(out),
                Err(_) => None,
            },
            Err(_) => None,
        },
        Err(_) => None,
    }
}

/// Why no executable came out of a release archive.
#[derive(Clone, Copy, Debug, PartialEq, Eq, Structural)]
pub enum ExtractError {
    /// The archive, or an entry that had to be looked at, cannot be read.
    Unreadable,
    /// The archive holds no entry for the server's executable.
    EntryMissing,
}

/// How the search through an archive's entries ends.
#[derive(Clone, Copy, Debug, PartialEq, Eq, Structural)]
pub enum Scan {
    /// The entry at this index is the first one for the server's executable.
    Found(usize),
    /// No entry is for the server's executable.
    Missing,
    /// An entry before any match cannot be read.
    Broken,
}

/// An entry is the server's executable where its name ends in
/// `rust-analyzer.exe`.
pub open spec fn spec_is_server_entry(name: Seq<char>) -> bool {
    is_suffix("rust-analyzer.exe"@, name)
}

/// The search through the entries `from..count` in order: it ends at the
/// first entry that is the server's executable, or at the first that cannot
/// be read.
pub open spec fn spec_scan(bytes: Seq<u8>, from: nat, count: nat) -> Scan
    decreases count - from,
{
    if from >= count {
        Scan::Missing
    } else {
        match zip_entry_name(bytes, from) {
            None => Scan::Broken,
            Some(name) => if spec_is_server_entry(name) {
                Scan::Found(from as usize)
            } else {
                spec_scan(bytes, from + 1, count)
            },
        }
    }
}

/// The server's executable as a zip archive holds it.
pub open spec fn spec_unzip_server(bytes: Seq<u8>) -> Result<Seq<u8>, ExtractError> {
    match zip_entry_count(bytes) {
        None => Err(ExtractError::Unreadable),
        Some(count) => match spec_scan(bytes, 0, count) {
            Scan::Found(i) => match zip_entry_data(bytes, i as nat) {
                Some(data) => Ok(data),
                None => Err(ExtractError::Unreadable),
            },
            Scan::Missing => Err(ExtractError::EntryMissing),
            Scan::Broken => Err(ExtractError::Unreadable),
        },
    }
}

/// The server's executable as a gzip stream holds it.
pub open spec fn spec_gunzip_server(bytes: Seq<u8>) -> Result<Seq<u8>, ExtractError> {
    match gzip_decoded(bytes) {
        Some(data) => Ok(data),
        None => Err(ExtractError::Unreadable),
    }
}

/// The server's executable as a release archive of the given kind holds it.
pub open spec fn spec_extract_server(kind: ArchiveKind, bytes: Seq<u8>) -> Result<
    Seq<u8>,
    ExtractError,
> {
    match kind {
        ArchiveKind::Zip => spec_unzip_server(bytes),
        ArchiveKind::Gzip => spec_gunzip_server(bytes),
    }
}

/// The bytes of an extraction's outcome.
pub open spec fn bytes_of(r: Result<Vec<u8>, ExtractError>) -> Result<Seq<u8>, ExtractError> {
    match r {
        Ok(data) => Ok(data@),
        Err(e) => Err(e),
    }
}

/// Whether an entry of this name is the server's executable.
pub fn is_server_entry(name: &str) -> (r: bool)
    ensures
        r == spec_is_server_entry(name@),
{
    ends_with(name, "rust-analyzer.exe")
}

/// Searches the first `count` entries of a zip archive, in order, for the
/// server's executable.
pub fn scan_entries(bytes: &Vec<u8>, count: usize) -> (r: Scan)
    ensures
        r == spec_scan(bytes@, 0, count as nat),
{
    let mut i: usize = 0;
    while i < count
        invariant
            i <= count,
            spec_scan(bytes@, 0, count as nat) == spec_scan(bytes@, i as nat, count as nat),
        decreases count - i,
    {
        match zip_name_at(bytes, i) {
            None => {
                return Scan::Broken;
            },
            Some(name) => {
                if is_server_entry(name.as_str()) {
                    return Scan::Found(i);
                }
            },
        }
        i = i + 1;
    }
    Scan::Missing
}

/// Takes the server's executable out of a zip archive: the content of the
/// first entry whose name ends in `rust-analyzer.exe`.
pub fn unzip_server(bytes: &Vec<u8>) -> (r: Result<Vec<u8>, ExtractError>)
    ensures
        bytes_of(r) == spec_unzip_server(bytes@),
{
    match zip_len(bytes) {
        None => Err(ExtractError::Unreadable),
        Some(count) => match scan_entries(bytes, count) {
            Scan::Found(i) => match zip_data_at(bytes, i) {
                Some(data) => Ok(data),
                None => Err(ExtractError::Unreadable),
            },
            Scan::Missing => Err(ExtractError::EntryMissing),
            Scan::Broken => Err(ExtractError::Unreadable),
        },
    }
}

/// Takes the server's executable out of a gzip stream.
pub fn gunzip_server(bytes: &Vec<u8>) -> (r: Result<Vec<u8>, ExtractError>)
    ensures
        bytes_of(r) == spec_gunzip_server(bytes@),
{
    match gunzip(bytes) {
        Some(data) => Ok(data),
        None => Err(ExtractError::Unreadable),
    }
}

/// Takes the server's executable out of a release archive of the given kind.
pub fn extract_server(kind: ArchiveKind, bytes: &Vec<u8>) -> (r: Result<Vec<u8>, ExtractError>)
    ensures
        bytes_of(r) == spec_extract_server(kind, bytes@),
{
    match kind {
        ArchiveKind::Zip => unzip_server(bytes),
        ArchiveKind::Gzip => gunzip_server(bytes),
    }
}

} // verus!
