//! Reading the contest files (`time`, `contest`, `runs`) out of the zip
//! archive that the contest system publishes. A file may sit at the root
//! of the archive, under `./`, under `./sample/` or under `sample/`; the
//! first of these places that can be read is taken.
use vstd::prelude::*;
use vstd::utf8::*;
use std::io::Cursor;
use std::io::Read;
use zip::read::ZipFile;
use zip::result::ZipError;
use zip::ZipArchive;

verus! {

#[verifier::external_type_specification]
#[verifier::external_body]
#[verifier::reject_recursive_types(T)]
pub struct ExCursor<T>(std::io::Cursor<T>);

#[verifier::external_type_specification]
#[verifier::external_body]
pub struct ExIoError(std::io::Error);

#[verifier::external_type_specification]
#[verifier::external_body]
#[verifier::reject_recursive_types(R)]
pub struct ExZipArchive<R>(zip::ZipArchive<R>);


#[verifier::external_type_specification]
#[verifier::external_body]
pub struct ExZipError(zip::result::ZipError);

/// A zip archive read from bytes held in memory.
pub type Archive = ZipArchive<Cursor<Vec<u8>>>;

/// One file of such an archive, open for reading. The `zip::read::ZipFile`
/// it holds is private: only `zip_by_name` makes one and only
/// `zip_read_to_end` reads it.
#[verifier::external_body]
pub struct ArchiveFile<'a> {
    file: ZipFile<'a, Cursor<Vec<u8>>>,
}

/// Errors while reading contest files out of an archive.
#[derive(Debug)]
pub enum ContestIOError {
    /// The archive or one of its files could not be used; the text says why.
    Info(String),
    /// Reading a file's bytes out of the archive failed.
    IO(std::io::Error),
}

/// Why looking a file up in an archive failed: the archive has no file of
/// that name, or it has one that it cannot hand out.
pub enum LookupFailure {
    NotFound,
    Other(ZipError),
}

/// What looking a listed file up and reading it to its end gives: the
/// lookup fails, or the lookup succeeds and the reading fails, or both
/// succeed with these bytes.
pub enum EntryRead {
    LookupFails,
    ReadFails,
    Bytes(Seq<u8>),
}

/// The bytes that a cursor reads from.
pub uninterp spec fn cursor_bytes(cursor: Cursor<Vec<u8>>) -> Seq<u8>;

/// Whether `ZipArchive::new` opens the given bytes as an archive.
pub uninterp spec fn zip_opens(data: Seq<u8>) -> bool;

/// The files of the archive that `ZipArchive::new` opens from the given
/// bytes, as `archive_entries` describes them.
pub uninterp spec fn zip_entries(data: Seq<u8>) -> Map<Seq<char>, EntryRead>;

/// The files of an open archive: each name that the archive lists, with
/// what looking the file up and reading it to its end gives.
pub uninterp spec fn archive_entries(archive: Archive) -> Map<Seq<char>, EntryRead>;

/// What reading an archive file from where it stands to its end yields:
/// `Some` of the bytes, or `None` where the reading fails.
pub uninterp spec fn entry_rest(file: ArchiveFile<'_>) -> Option<Seq<u8>>;

/// Calls `std::io::Cursor::new`, which wraps the bytes without copying or
/// changing them; the contract claims that the cursor reads those bytes.
#[verifier::external_body]
fn new_cursor(data: Vec<u8>) -> (cursor: Cursor<Vec<u8>>)
    ensures
        cursor_bytes(cursor) == data@,
{
    Cursor::new(data)
}

/// Calls `zip::ZipArchive::new`, which reads the central directory of the
/// archive (it seeks to absolute positions, so only the bytes matter); the
/// contract claims that it opens exactly where `zip_opens` holds, and that
/// the archive it opens holds the files `zip_entries` finds in those bytes.
/// Which error it gives otherwise is not stated.
#[verifier::external_body]
fn zip_open(cursor: Cursor<Vec<u8>>) -> (archive: Result<Archive, ZipError>)
    ensures
        archive is Ok <==> zip_opens(cursor_bytes(cursor)),
        archive matches Ok(a) ==> archive_entries(a) == zip_entries(cursor_bytes(cursor)),
{
    ZipArchive::new(cursor)
}

/// Calls `zip::ZipArchive::by_name`, which looks a file up by its name. The
/// contract claims: it fails with `FileNotFound` exactly for a name that the
/// archive does not list; it fails with another error exactly for a listed
/// file whose lookup fails (encrypted, unsupported), passing that error on;
/// a file it hands out reads as `archive_entries` says; and it leaves the
/// archive's files as they were.
#[verifier::external_body]
fn zip_by_name<'a>(archive: &'a mut Archive, name: &str) -> (file: Result<ArchiveFile<'a>, LookupFailure>)
    ensures
        archive_entries(*final(archive)) == archive_entries(*old(archive)),
        file matches Err(LookupFailure::NotFound) <==> !archive_entries(*old(archive)).contains_key(name@),
        file matches Err(LookupFailure::Other(_)) <==> (archive_entries(*old(archive)).contains_key(name@)
            && archive_entries(*old(archive))[name@] is LookupFails),
        file matches Ok(f) ==> (archive_entries(*old(archive))[name@] is ReadFails ==> entry_rest(f) is None),
        file matches Ok(f) ==> (archive_entries(*old(archive))[name@] matches EntryRead::Bytes(b)
            ==> entry_rest(f) == Some(b)),
{
    match archive.by_name(name) {
        Ok(file) => Ok(ArchiveFile { file }),
        Err(ZipError::FileNotFound) => Err(LookupFailure::NotFound),
        Err(e) => Err(LookupFailure::Other(e)),
    }
}

/// Calls `std::io::Read::read_to_end` on an archive file, which
/// decompresses it and checks its checksum; the contract claims that it
/// succeeds exactly where `entry_rest` has bytes, and then reads them.
/// Which error it gives otherwise is not stated.
#[verifier::external_body]
fn zip_read_to_end(file: &mut ArchiveFile<'_>) -> (bytes: Result<Vec<u8>, std::io::Error>)
    ensures
        bytes is Ok <==> entry_rest(*old(file)) is Some,
        bytes matches Ok(b) ==> Some(b@) == entry_rest(*old(file)),
{
    let mut buffer = Vec::new();
    file.file.read_to_end(&mut buffer)?;
    Ok(buffer)
}

/// Calls `String::from_utf8`, which succeeds exactly on valid UTF-8 and
/// then holds the characters that the bytes encode.
#[verifier::external_body]
fn string_from_utf8(bytes: Vec<u8>) -> (s: Option<String>)
    ensures
        s is Some <==> valid_utf8(bytes@),
        s matches Some(t) ==> t@ == decode_utf8(bytes@),
{
    String::from_utf8(bytes).ok()
}

/// Calls the `Debug` formatting that `zip::result::ZipError` derives. For
/// `FileNotFound`, a variant without fields, the derived formatting writes
/// the variant's name; what it writes for the other variants is not stated.
#[verifier::external_body]
fn lookup_failure_text(e: &LookupFailure) -> (text: String)
    ensures
        *e is NotFound ==> text@ == "FileNotFound"@,
{
    match e {
        LookupFailure::NotFound => format!("{:?}", ZipError::FileNotFound),
        LookupFailure::Other(z) => format!("{:?}", z),
    }
}

/// Calls the `Debug` formatting of `zip::result::ZipError`. What the text
/// says is not stated.
#[verifier::external_body]
fn zip_error_text(e: &ZipError) -> (text: String) {
    format!("{:?}", e)
}

/// The text that an error opening an archive starts with.
pub open spec fn open_failure_prefix() -> Seq<char> {
    "Could not open zipfile: "@
}

/// The text that an error looking up the file `name` starts with.
pub open spec fn unpack_failure_prefix(name: Seq<char>) -> Seq<char> {
    "Could not unpack file: "@ + name + " "@
}

/// The text of the error for a file that the archive does not list.
pub open spec fn not_found_message(name: Seq<char>) -> Seq<char> {
    unpack_failure_prefix(name) + "FileNotFound"@
}

/// The text of the error for a file that is not valid UTF-8.
pub open spec fn utf8_failure() -> Seq<char> {
    "Could not parse to UTF8"@
}

pub open spec fn starts_with(s: Seq<char>, prefix: Seq<char>) -> bool {
    prefix.len() <= s.len() && s.subrange(0, prefix.len() as int) == prefix
}

/// Whether the file at `path` can be read as text: the archive lists it,
/// it reads to its end, and its bytes are valid UTF-8.
pub open spec fn readable(entries: Map<Seq<char>, EntryRead>, path: Seq<char>) -> bool {
    &&& entries.contains_key(path)
    &&& entries[path] matches EntryRead::Bytes(b)
    &&& valid_utf8(b)
}

/// The text of a readable file.
pub open spec fn text_of(entries: Map<Seq<char>, EntryRead>, path: Seq<char>) -> Seq<char> {
    decode_utf8(entries[path]->Bytes_0)
}

/// The error that reading the file at `path` as text gives when it cannot:
/// for an unlisted file, the not-found message; for a file whose bytes are
/// not UTF-8, the UTF-8 message; for a file whose lookup fails, a lookup
/// message for that path; for a file whose reading fails, the reading error.
pub open spec fn failure_for(entries: Map<Seq<char>, EntryRead>, path: Seq<char>, e: ContestIOError) -> bool {
    if !entries.contains_key(path) {
        e matches ContestIOError::Info(m) && m@ == not_found_message(path)
    } else {
        match entries[path] {
            EntryRead::Bytes(_) => e matches ContestIOError::Info(m) && m@ == utf8_failure(),
            EntryRead::LookupFails => e matches ContestIOError::Info(m) && starts_with(m@, unpack_failure_prefix(path)),
            EntryRead::ReadFails => e is IO,
        }
    }
}

/// Opens the archive held in `data`.
pub fn open_archive(data: Vec<u8>) -> (archive: Result<Archive, ContestIOError>)
    ensures
        archive is Ok <==> zip_opens(data@),
        archive matches Ok(a) ==> archive_entries(a) == zip_entries(data@),
        archive matches Err(e) ==> e matches ContestIOError::Info(m) && starts_with(m@, open_failure_prefix()),
{
    let cursor = new_cursor(data);
    match zip_open(cursor) {
        Ok(a) => Ok(a),
        Err(e) => {
            let mut m = String::from_str("Could not open zipfile: ");
            let text = zip_error_text(&e);
            let ghost before = m@;
            m.append(text.as_str());
            assert(m@.subrange(0, before.len() as int) =~= before);
            Err(ContestIOError::Info(m))
        },
    }
}

/// Reads the file `name` out of the archive as text: the whole file where it
/// can be read, else the error that `failure_for` names.
pub fn try_read_from_zip(zip: &mut Archive, name: &str) -> (text: Result<String, ContestIOError>)
    ensures
        archive_entries(*final(zip)) == archive_entries(*old(zip)),
        text is Ok <==> readable(archive_entries(*old(zip)), name@),
        text matches Ok(s) ==> s@ == text_of(archive_entries(*old(zip)), name@),
        text matches Err(e) ==> failure_for(archive_entries(*old(zip)), name@, e),
{
    let bytes = match zip_by_name(zip, name) {
        Ok(mut file) => {
            match zip_read_to_end(&mut file) {
                Ok(b) => b,
                Err(e) => {
                    return Err(ContestIOError::IO(e));
                },
            }
        },
        Err(e) => {
            let mut m = String::from_str("Could not unpack file: ");
            m.append(name);
            m.append(" ");
            let ghost before = m@;
            let text = lookup_failure_text(&e);
            m.append(text.as_str());
            assert(m@.subrange(0, before.len() as int) =~= before);
            return Err(ContestIOError::Info(m));
        },
    };
    match string_from_utf8(bytes) {
        Some(s) => Ok(s),
        None => Err(ContestIOError::Info(String::from_str("Could not parse to UTF8"))),
    }
}

/// The places where the file `name` may sit in the archive, in the order
/// they are tried.
pub open spec fn candidate_paths(name: Seq<char>) -> Seq<Seq<char>> {
    seq![name, "./"@ + name, "./sample/"@ + name, "sample/"@ + name]
}

/// Lists the places where the file `name` may sit, in the order they are tried.
pub fn zip_candidates(name: &str) -> (paths: Vec<String>)
    ensures
        paths.deep_view() == candidate_paths(name@),
{
    let mut paths: Vec<String> = Vec::new();
    paths.push(String::from_str(name));
    let mut p1 = String::from_str("./");
    p1.append(name);
    paths.push(p1);
    let mut p2 = String::from_str("./sample/");
    p2.append(name);
    paths.push(p2);
    let mut p3 = String::from_str("sample/");
    p3.append(name);
    paths.push(p3);
    assert(paths.deep_view() =~= candidate_paths(name@));
    paths
}

/// Reads the file `name` out of the archive as text, trying each of its
/// places in turn: the text of the first place that can be read, or, where
/// none can, the error for the last place, `sample/name`.
pub fn read_from_zip(zip: &mut Archive, name: &str) -> (text: Result<String, ContestIOError>)
    ensures
        archive_entries(*final(zip)) == archive_entries(*old(zip)),
        text is Ok <==> exists|i: int| 0 <= i < 4 && readable(archive_entries(*old(zip)), #[trigger] candidate_paths(name@)[i]),
        text matches Ok(s) ==> exists|i: int| 0 <= i < 4 && {
            &&& readable(archive_entries(*old(zip)), #[trigger] candidate_paths(name@)[i])
            &&& s@ == text_of(archive_entries(*old(zip)), candidate_paths(name@)[i])
            &&& forall|j: int| 0 <= j < i ==> !readable(archive_entries(*old(zip)), #[trigger] candidate_paths(name@)[j])
        },
        text matches Err(e) ==> failure_for(archive_entries(*old(zip)), candidate_paths(name@)[3], e),
{
    let ghost entries = archive_entries(*zip);
    let ghost places = candidate_paths(name@);
    let paths = zip_candidates(name);
    assert(paths@.len() == paths.deep_view().len());
    assert(paths.deep_view()[0] == paths@[0]@);
    let mut i: usize = 0;
    let mut result = try_read_from_zip(zip, paths[0].as_str());
    while result.is_err() && i < 3
        invariant
            0 <= i <= 3,
            paths@.len() == 4,
            paths.deep_view() == places,
            places == candidate_paths(name@),
            archive_entries(*zip) == entries,
            result is Ok <==> readable(entries, places[i as int]),
            result matches Ok(s) ==> s@ == text_of(entries, places[i as int]),
            result matches Err(e) ==> failure_for(entries, places[i as int], e),
            forall|j: int| 0 <= j < i ==> !readable(entries, #[trigger] places[j]),
        decreases 3 - i,
    {
        i = i + 1;
        assert(paths.deep_view()[i as int] == paths@[i as int]@);
        result = try_read_from_zip(zip, paths[i].as_str());
    }
    if result.is_err() {
        assert(i == 3);
        assert forall|k: int| 0 <= k < 4 implies !readable(entries, #[trigger] places[k]) by {
            if k < 3 {
                assert(!readable(entries, places[k]));
            }
        }
    } else {
        assert(readable(entries, places[i as int]));
    }
    result
}

/// For every file name, the places tried are, in order: the name itself,
/// `./` before it, `./sample/` before it, and `sample/` before it; each ends
/// with the name, and no two are the same.
pub proof fn lemma_candidate_places(name: Seq<char>)
    ensures
        candidate_paths(name).len() == 4,
        candidate_paths(name)[0] == name,
        candidate_paths(name)[1] == "./"@ + name,
        candidate_paths(name)[2] == "./sample/"@ + name,
        candidate_paths(name)[3] == "sample/"@ + name,
        forall|k: int| 0 <= k < 4 ==> {
            let path = #[trigger] candidate_paths(name)[k];
            &&& path.len() >= name.len()
            &&& path.subrange(path.len() - name.len(), path.len() as int) == name
        },
        forall|i: int, j: int| 0 <= i < j < 4 ==> #[trigger] candidate_paths(name)[i] != #[trigger] candidate_paths(name)[j],
{
    reveal_strlit("./");
    reveal_strlit("./sample/");
    reveal_strlit("sample/");
    let c = candidate_paths(name);
    assert(c[0].len() == name.len());
    assert(c[1].len() == name.len() + 2);
    assert(c[2].len() == name.len() + 9);
    assert(c[3].len() == name.len() + 7);
    assert(c[0].subrange(0, name.len() as int) =~= name);
    assert(c[1].subrange(2, c[1].len() as int) =~= name);
    assert(c[2].subrange(9, c[2].len() as int) =~= name);
    assert(c[3].subrange(7, c[3].len() as int) =~= name);
}

} // verus!
