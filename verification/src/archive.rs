//! The archive that a download sends: a source file and the files of a test
//! directory, packed by the `zip` crate and dated with the time of packing.

use std::io::Cursor;
use std::io::Write;
use vstd::prelude::*;
use crate::calendar::Stamp;
use crate::request::code_entry_name;
use zip::result::ZipError;
use zip::write::FileOptions;
use zip::CompressionMethod;
use zip::DateTime;
use zip::ZipWriter;

verus! {

/// A file to pack: its name, or its path below the data directory, and its
/// bytes.
pub struct SourceFile {
    pub name: String,
    pub data: Vec<u8>,
}

/// Why no archive was built: the packer's own words.
#[derive(Debug)]
pub struct ArchiveError {
    pub message: String,
}

/// The `zip` crate's error.
#[verifier::external_type_specification]
#[verifier::external_body]
pub struct ExZipError(ZipError);

/// The standard library's I/O error.
#[verifier::external_type_specification]
#[verifier::external_body]
pub struct ExIoError(std::io::Error);

/// The `zip` crate's archive writer over a buffer in memory. Nothing but
/// the functions below touches it.
#[verifier::external_body]
pub struct ArchiveWriter {
    inner: ZipWriter<Cursor<Vec<u8>>>,
}

/// A file as it is handed in: a name and the bytes under it.
pub type Named = (Seq<char>, Seq<u8>);

/// An archive entry: a name, the bytes under it, and the time that the
/// archive gives as its last change.
pub type Entry = (Seq<char>, Seq<u8>, Stamp);

/// The files that a writer has taken so far, in the order in which they
/// were started: each with its name, the bytes written to it and the time
/// it was started with.
pub uninterp spec fn zip_entries(writer: ArchiveWriter) -> Seq<Entry>;

/// Whether a writer still takes files: it was made by `ZipWriter::new`, no
/// call on it has failed, and it has not been finished.
pub uninterp spec fn zip_ready(writer: ArchiveWriter) -> bool;

/// Whether `ZipWriter::start_file` succeeds for a file of this name and
/// time on a writer that has taken these files. The writer works on a
/// buffer in memory and asks neither a clock nor the machine, so what it
/// answers depends on nothing but what it was given.
pub uninterp spec fn zip_starts(entries: Seq<Entry>, name: Seq<char>, stamp: Stamp) -> bool;

/// Whether `write_all` succeeds for these bytes on a writer that has taken
/// these files, the last of them started and still empty.
pub uninterp spec fn zip_writes(entries: Seq<Entry>, data: Seq<u8>) -> bool;

/// What `ZipWriter::finish` gives on a writer that has taken these files:
/// the bytes of the archive that holds them in this order, each deflated at
/// the default level and dated as its entry says, or nothing where it
/// fails. The `zip` crate is built without its `time` feature and every
/// file is given its time, so that the archive depends on nothing but the
/// entries.
pub uninterp spec fn zip_archive(entries: Seq<Entry>) -> Option<Seq<u8>>;

/// The entries with `data` as the bytes of the last one.
pub open spec fn with_data(entries: Seq<Entry>, data: Seq<u8>) -> Seq<Entry>
    recommends
        entries.len() > 0,
{
    entries.drop_last().push((entries.last().0, data, entries.last().2))
}

/// `ZipWriter::new` makes a writer that holds no file yet.
#[verifier::external_body]
fn new_writer() -> (writer: ArchiveWriter)
    ensures
        zip_ready(writer),
        zip_entries(writer) == Seq::<Entry>::empty(),
{
    ArchiveWriter { inner: ZipWriter::new(Cursor::new(Vec::new())) }
}

/// `ZipWriter::start_file`, with the deflate method and the given time as
/// `FileOptions::last_modified_time`, ends the file before, if any, and
/// begins one of the given name, empty so far. The time is within the
/// bounds of `DateTime::from_date_and_time`, which then takes it as it is.
/// Whether the start succeeds is `zip_starts` of what the writer holds, the
/// name and the time. Where it fails nothing more is said of the writer.
#[verifier::external_body]
fn start_file(writer: &mut ArchiveWriter, name: &str, stamp: Stamp) -> (started: Result<
    (),
    ZipError,
>)
    requires
        zip_ready(*old(writer)),
        stamp.fits_archive(),
    ensures
        started is Ok == zip_starts(zip_entries(*old(writer)), name@, stamp),
        started is Ok ==> zip_ready(*final(writer)),
        started is Ok ==> zip_entries(*final(writer)) == zip_entries(*old(writer)).push(
            (name@, Seq::<u8>::empty(), stamp),
        ),
{
    let Stamp { year, month, day, hour, minute, second } = stamp;
    let modified = match DateTime::from_date_and_time(year, month, day, hour, minute, second) {
        Ok(time) => time,
        Err(()) => DateTime::default(),
    };
    let options = FileOptions::default().compression_method(CompressionMethod::Deflated);
    writer.inner.start_file(name, options.last_modified_time(modified))
}

/// `write_all` on a `ZipWriter` gives the bytes to the file that was
/// started last. It is called once for a file, while that file is empty.
/// Whether it succeeds is `zip_writes` of what the writer holds and the
/// bytes. Where it fails nothing more is said of the writer.
#[verifier::external_body]
fn write_data(writer: &mut ArchiveWriter, data: &[u8]) -> (written: Result<(), std::io::Error>)
    requires
        zip_ready(*old(writer)),
        zip_entries(*old(writer)).len() > 0,
        zip_entries(*old(writer)).last().1.len() == 0,
    ensures
        written is Ok == zip_writes(zip_entries(*old(writer)), data@),
        written is Ok ==> zip_ready(*final(writer)),
        written is Ok ==> zip_entries(*final(writer)) == with_data(
            zip_entries(*old(writer)),
            data@,
        ),
{
    writer.inner.write_all(data)
}

/// `ZipWriter::finish` ends the last file, writes the directory and hands
/// back the buffer: the archive of the files that the writer took. What it
/// gives is `zip_archive` of what the writer holds.
#[verifier::external_body]
fn finish(writer: &mut ArchiveWriter) -> (finished: Result<Vec<u8>, ZipError>)
    requires
        zip_ready(*old(writer)),
    ensures
        match finished {
            Ok(bytes) => zip_archive(zip_entries(*old(writer))) == Some(bytes@),
            Err(_) => zip_archive(zip_entries(*old(writer))) is None,
        },
{
    match writer.inner.finish() {
        Ok(cursor) => Ok(cursor.into_inner()),
        Err(error) => Err(error),
    }
}

/// A file to pack with its name and bytes.
pub open spec fn named(file: SourceFile) -> Named {
    (file.name@, file.data@)
}

/// The files with their names and bytes, in their order.
pub open spec fn all_named(files: Seq<SourceFile>) -> Seq<Named> {
    files.map_values(|file: SourceFile| named(file))
}

/// The files of the archive for a request: the source file, if there is
/// one, under `code/` and its name; then the test files under their paths,
/// in the order given.
pub open spec fn planned_files(code: Option<SourceFile>, tests: Seq<SourceFile>) -> Seq<Named> {
    match code {
        Some(file) => seq![("code/"@ + file.name@, file.data@)] + all_named(tests),
        None => all_named(tests),
    }
}

/// The files as archive entries, every one dated with the same time.
pub open spec fn stamped(files: Seq<Named>, stamp: Stamp) -> Seq<Entry> {
    files.map_values(|file: Named| (file.0, file.1, stamp))
}

/// Whether a writer that has taken `before` takes one more file: the file
/// is started, and then its bytes are written.
pub open spec fn takes_file(before: Seq<Entry>, file: Entry) -> bool {
    &&& zip_starts(before, file.0, file.2)
    &&& zip_writes(before.push((file.0, Seq::<u8>::empty(), file.2)), file.1)
}

/// Whether a new writer takes all these files, one after the other.
pub open spec fn takes_all(entries: Seq<Entry>) -> bool
    decreases entries.len(),
{
    entries.len() == 0 || (takes_all(entries.drop_last()) && takes_file(
        entries.drop_last(),
        entries.last(),
    ))
}

/// The archive of these files, packed one after the other: what finishing
/// gives where the writer takes every file, and nothing where it refuses
/// one of them.
pub open spec fn packed(entries: Seq<Entry>) -> Option<Seq<u8>> {
    if takes_all(entries) {
        zip_archive(entries)
    } else {
        None
    }
}

/// A writer that takes all of some files takes every part of them from the
/// start.
pub proof fn lemma_takes_all_prefix(entries: Seq<Entry>, k: int)
    requires
        takes_all(entries),
        0 <= k <= entries.len(),
    ensures
        takes_all(entries.take(k)),
    decreases entries.len(),
{
    if k == entries.len() {
        assert(entries.take(k) == entries);
    } else {
        assert(entries.drop_last().take(k) == entries.take(k));
        lemma_takes_all_prefix(entries.drop_last(), k);
    }
}

/// What becomes of the result of a call to the `zip` crate: a success is
/// handed on as it is; a failure becomes the library's error, with the
/// words that the `zip` crate's error shows.
pub fn zip_outcome<T>(result: Result<T, ZipError>) -> (outcome: Result<T, ArchiveError>)
    ensures
        match result {
            Ok(value) => outcome == Ok::<T, ArchiveError>(value),
            Err(error) => outcome is Err && vstd::string::to_string_from_display_ensures::<
                ZipError,
            >(&error, outcome->Err_0.message),
        },
{
    match result {
        Ok(value) => Ok(value),
        Err(error) => Err(ArchiveError { message: error.to_string() }),
    }
}

/// What becomes of the result of a write: a success is handed on as it is;
/// a failure becomes the library's error, with the words that the I/O
/// error shows.
pub fn io_outcome<T>(result: Result<T, std::io::Error>) -> (outcome: Result<T, ArchiveError>)
    ensures
        match result {
            Ok(value) => outcome == Ok::<T, ArchiveError>(value),
            Err(error) => outcome is Err && vstd::string::to_string_from_display_ensures::<
                std::io::Error,
            >(&error, outcome->Err_0.message),
        },
{
    match result {
        Ok(value) => Ok(value),
        Err(error) => Err(ArchiveError { message: error.to_string() }),
    }
}

/// What the archive for a request holds, in order: the source file, if
/// there is one, renamed to stand under `code/`; then the test files as
/// they are.
pub fn archive_entries(code: Option<SourceFile>, tests: Vec<SourceFile>) -> (entries: Vec<
    SourceFile,
>)
    ensures
        all_named(entries@) == planned_files(code, tests@),
{
    let mut entries = tests;
    if let Some(file) = code {
        let name = code_entry_name(file.name.as_str());
        let renamed = SourceFile { name, data: file.data };
        entries.insert(0, renamed);
    }
    entries
}

/// Packs one file: starts it under its name with the given time and writes
/// its bytes. It succeeds exactly where the writer takes the file, and then
/// the writer holds one file more; it fails with the words of the step that
/// failed.
fn add_file(writer: &mut ArchiveWriter, file: &SourceFile, stamp: Stamp) -> (added: Result<
    (),
    ArchiveError,
>)
    requires
        zip_ready(*old(writer)),
        stamp.fits_archive(),
    ensures
        added is Ok == takes_file(
            zip_entries(*old(writer)),
            (file.name@, file.data@, stamp),
        ),
        added is Ok ==> zip_ready(*final(writer)),
        added is Ok ==> zip_entries(*final(writer)) == zip_entries(*old(writer)).push(
            (file.name@, file.data@, stamp),
        ),
{
    match zip_outcome(start_file(writer, file.name.as_str(), stamp)) {
        Ok(()) => {},
        Err(e) => {
            return Err(e);
        },
    }
    io_outcome(write_data(writer, file.data.as_slice()))
}

/// Packs the files into one archive in memory, each under its name, in the
/// order given, and dates every one with `stamp`, or with the beginning of
/// 1980 where `stamp` is outside the bounds of the archive's format. The
/// result is `packed` of these entries: the bytes of their archive where
/// the packer takes every file and finishes, and an error with the words
/// of the packer's first failure where it does not.
pub fn pack(files: &Vec<SourceFile>, stamp: Stamp) -> (result: Result<Vec<u8>, ArchiveError>)
    ensures
        match result {
            Ok(bytes) => packed(stamped(all_named(files@), stamp.or_epoch())) == Some(bytes@),
            Err(_) => packed(stamped(all_named(files@), stamp.or_epoch())) is None,
        },
{
    let dated = stamp.for_archive();
    let mut writer = new_writer();
    let n: usize = files.len();
    let mut i: usize = 0;
    while i < n
        invariant
            n == files.len(),
            i <= n,
            dated == stamp.or_epoch(),
            dated.fits_archive(),
            zip_ready(writer),
            zip_entries(writer) == stamped(all_named(files@.take(i as int)), dated),
            takes_all(stamped(all_named(files@.take(i as int)), dated)),
        decreases n - i,
    {
        proof {
            let all = stamped(all_named(files@), dated);
            let next = stamped(all_named(files@.take(i + 1)), dated);
            assert(next == all.take(i + 1));
            assert(next.drop_last() == stamped(all_named(files@.take(i as int)), dated));
            if takes_all(all) {
                lemma_takes_all_prefix(all, i + 1);
            }
        }
        match add_file(&mut writer, &files[i], dated) {
            Ok(()) => {},
            Err(e) => {
                return Err(e);
            },
        }
        i = i + 1;
    }
    assert(files@.take(n as int) == files@);
    zip_outcome(finish(&mut writer))
}

/// Builds the archive for a request in memory: the source file, if there
/// is one, under `code/` and its name, then each test file under its path,
/// every one dated with `stamp`, the time of packing. The result is
/// `packed` of these entries in this order: the bytes of their archive, or
/// an error where the packer refuses.
pub fn create_zip_in_memory(
    code: Option<SourceFile>,
    tests: Vec<SourceFile>,
    stamp: Stamp,
) -> (built: Result<Vec<u8>, ArchiveError>)
    ensures
        match built {
            Ok(bytes) => packed(stamped(planned_files(code, tests@), stamp.or_epoch())) == Some(
                bytes@,
            ),
            Err(_) => packed(stamped(planned_files(code, tests@), stamp.or_epoch())) is None,
        },
{
    let entries = archive_entries(code, tests);
    pack(&entries, stamp)
}

} // verus!
