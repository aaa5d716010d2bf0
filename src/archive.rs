//! Encoding of the archive: one record per entry, directories as directory
//! records and files stored uncompressed, written through zip's writer into
//! memory.

use vstd::prelude::*;
use std::io::Cursor;
use zip::write::FileOptions;
use zip::{CompressionMethod, ZipWriter};

verus! {

/// zip's writer over an in-memory buffer. Verus cannot take the writer's
/// type itself (its `Write + Seek` bounds), so it is held here.
#[verifier::external_body]
pub struct ZipBuffer {
    writer: ZipWriter<Cursor<Vec<u8>>>,
}

/// The records that the writer holds so far, in order: each record's name,
/// whether it is a directory, and its data.
pub uninterp spec fn records_of(w: ZipBuffer) -> Seq<(Seq<char>, bool, Seq<u8>)>;

/// Whether the writer still takes records: it is not finished and no write
/// has failed.
pub uninterp spec fn open_of(w: ZipBuffer) -> bool;

/// Largest amount of data zip writes to one record without its large-file
/// option.
pub const RECORD_LIMIT: u64 = 0xFFFF_FFFF;

/// The bytes of the finished archive that holds these records (stored
/// method, default permissions, the fixed default timestamp).
pub uninterp spec fn zip_bytes(records: Seq<(Seq<char>, bool, Seq<u8>)>) -> Seq<u8>;

/// The name zip gives a directory record: `/` appended unless the name
/// already ends in `/` or `\`.
pub open spec fn directory_name(name: Seq<char>) -> Seq<char> {
    if name.len() > 0 && (name.last() == '/' || name.last() == '\\') {
        name
    } else {
        name.push('/')
    }
}

/// Relies on zip::ZipWriter::new: a writer over an empty in-memory buffer
/// holds no records and is open.
#[verifier::external_body]
fn new_writer() -> (w: ZipBuffer)
    ensures
        records_of(w) == Seq::<(Seq<char>, bool, Seq<u8>)>::empty(),
        open_of(w),
{
    ZipBuffer { writer: ZipWriter::new(Cursor::new(Vec::new())) }
}

/// Relies on zip::ZipWriter::start_file with the stored method: on success
/// a file record named `name`, without data yet, follows the others. With
/// zip's `time` feature off, as this crate builds it, the record carries the
/// fixed default timestamp. On an open writer over memory it succeeds.
#[verifier::external_body]
fn start_stored_file(w: &mut ZipBuffer, name: &str) -> (r: Result<(), String>)
    ensures
        open_of(*old(w)) ==> r is Ok && open_of(*final(w)),
        r is Ok ==> records_of(*final(w)) == records_of(*old(w)).push((name@, false, Seq::<u8>::empty())),
{
    let options = FileOptions::default().compression_method(CompressionMethod::Stored);
    match w.writer.start_file(name, options) {
        Ok(()) => Ok(()),
        Err(e) => Err(e.to_string()),
    }
}

/// Relies on zip::ZipWriter::add_directory: on success a directory record,
/// named as `directory_name` says, follows the others. On an open writer
/// over memory it succeeds.
#[verifier::external_body]
fn add_directory_record(w: &mut ZipBuffer, name: &str) -> (r: Result<(), String>)
    ensures
        open_of(*old(w)) ==> r is Ok && open_of(*final(w)),
        r is Ok ==> records_of(*final(w)) == records_of(*old(w)).push(
            (directory_name(name@), true, Seq::<u8>::empty()),
        ),
{
    match w.writer.add_directory(name, FileOptions::default()) {
        Ok(()) => Ok(()),
        Err(e) => Err(e.to_string()),
    }
}

/// Relies on std::io::Write::write_all on zip::ZipWriter: writing fails
/// unless a file record is open, which is then the last record; on success
/// `data` extends that record's data. Empty data changes nothing. On an
/// open writer whose last record is a file, it succeeds while that record's
/// data stays within `RECORD_LIMIT` bytes.
#[verifier::external_body]
fn write_data(w: &mut ZipBuffer, data: &[u8]) -> (r: Result<(), String>)
    ensures
        ({
            let old_records = records_of(*old(w));
            open_of(*old(w)) && old_records.len() > 0 && !old_records.last().1
                && old_records.last().2.len() + data@.len() <= RECORD_LIMIT
        }) ==> r is Ok && open_of(*final(w)),
        r is Ok && data@.len() == 0 ==> records_of(*final(w)) == records_of(*old(w)),
        r is Ok && data@.len() > 0 ==> {
            let old_records = records_of(*old(w));
            let last = old_records.last();
            &&& old_records.len() > 0
            &&& !last.1
            &&& records_of(*final(w)) == old_records.update(
                old_records.len() - 1,
                (last.0, false, last.2 + data@),
            )
        },
{
    match std::io::Write::write_all(&mut w.writer, data) {
        Ok(()) => Ok(()),
        Err(e) => Err(e.to_string()),
    }
}

/// Relies on zip::ZipWriter::finish: on success the buffer holds the
/// finished archive of the records written. On an open writer over memory
/// it succeeds.
#[verifier::external_body]
fn finish_writer(w: &mut ZipBuffer) -> (r: Result<Vec<u8>, String>)
    ensures
        open_of(*old(w)) ==> r is Ok,
        r matches Ok(bytes) ==> bytes@ == zip_bytes(records_of(*old(w))),
{
    match w.writer.finish() {
        Ok(buffer) => Ok(buffer.into_inner()),
        Err(e) => Err(e.to_string()),
    }
}

/// The record that an entry becomes: a directory record without data, or a
/// file record with the file's bytes.
pub open spec fn record(path: Seq<char>, is_dir: bool, data: Seq<u8>) -> (Seq<char>, bool, Seq<u8>) {
    if is_dir {
        (directory_name(path), true, Seq::empty())
    } else {
        (path, false, data)
    }
}

/// An archive being written in memory.
pub struct Archive {
    writer: ZipBuffer,
}

impl View for Archive {
    type V = Seq<(Seq<char>, bool, Seq<u8>)>;

    closed spec fn view(&self) -> Self::V {
        records_of(self.writer)
    }
}

impl Archive {
    /// The archive still takes records: nothing has failed and it is not
    /// finished.
    pub closed spec fn writable(&self) -> bool {
        open_of(self.writer)
    }

    /// An archive without records.
    pub fn new() -> (r: Archive)
        ensures
            r@ == Seq::<(Seq<char>, bool, Seq<u8>)>::empty(),
            r.writable(),
    {
        Archive { writer: new_writer() }
    }

    /// Appends the record for an entry at `path` (relative, `/`-separated).
    /// `data` is the file's content and is not used for a directory. On
    /// success the record follows the earlier ones; on failure the archive
    /// must not be finished. A writable archive takes every directory and
    /// every file of at most `RECORD_LIMIT` bytes, and stays writable.
    pub fn add(&mut self, path: &str, is_dir: bool, data: &[u8]) -> (r: Result<(), String>)
        ensures
            old(self).writable() && (is_dir || data@.len() <= RECORD_LIMIT) ==> r is Ok
                && final(self).writable(),
            r is Ok ==> final(self)@ == old(self)@.push(record(path@, is_dir, data@)),
    {
        if is_dir {
            add_directory_record(&mut self.writer, path)
        } else {
            let started = start_stored_file(&mut self.writer, path);
            if started.is_err() {
                return started;
            }
            let ghost opened = records_of(self.writer);
            let written = write_data(&mut self.writer, data);
            proof {
                if written is Ok && data@.len() > 0 {
                    assert(opened.update(opened.len() - 1, (path@, false, Seq::<u8>::empty() + data@))
                        =~= old(self)@.push((path@, false, data@)));
                }
                if written is Ok && data@.len() == 0 {
                    assert(data@ =~= Seq::<u8>::empty());
                }
            }
            written
        }
    }

    /// The bytes of the finished archive. On success they are the encoding
    /// of exactly the records added, so equal records give equal bytes. A
    /// writable archive always finishes.
    pub fn finish(self) -> (r: Result<Vec<u8>, String>)
        ensures
            self.writable() ==> r is Ok,
            r matches Ok(bytes) ==> bytes@ == zip_bytes(self@),
    {
        let mut w = self.writer;
        finish_writer(&mut w)
    }
}

} // verus!
