//! The archive: owner of the container handle.
//!
//! A [`ZipFile`] wraps at most one open container. The handle is `Some`
//! exactly while the archive is open; every mutating or reading operation
//! other than `open` fails fast with `NotOpen` on a closed archive, and
//! `close` is idempotent. The container itself — the member listing, the
//! buffered additions and deletions, and the per-handle diagnostic string —
//! is carried as verified state, while reading the container file from disk
//! and writing the finalized image back belong to the embedding application,
//! which passes record images in and out of [`ZipFile::open`] and
//! [`ZipFile::close`].

use vstd::prelude::*;
use crate::errors::OpenError;
use crate::errors::OperationError;
use crate::record::EntryRecord;
use crate::record::EntrySource;
use crate::record::RecordModel;
use crate::record::SourceModel;
use crate::record::records_view;
use crate::record::has_name;
use crate::record::index_of_name;
use crate::record::lookup;
use crate::record::consistent_records;
use crate::record::committed_records;
use crate::record::add_record;
use crate::record::delete_record;
use crate::record::lemma_index_of_name;
use crate::record::lemma_add_record_consistent;
use crate::record::lemma_delete_record_consistent;
use crate::entry::EntryStream;
use crate::entry::ZipEntry;

verus! {

/// The member table row the engine reports for a stat-by-name call. Fields
/// the container model does not track — timestamps, checksums, compression
/// and encryption methods — are reported as zero.
#[derive(Clone, Debug, PartialEq, Eq)]
pub struct FileStat {
    pub name: String,
    pub index: u64,
    pub size: u64,
    pub comp_size: u64,
    pub mtime: i64,
    pub crc: u32,
    pub comp_method: u16,
    pub encryption_method: u16,
    pub flags: u32,
}

/// The size the engine reports for a member: the byte count of an in-memory
/// source, and zero for a lazy filesystem source it has not read yet.
pub open spec fn stat_size(rec: RecordModel) -> int {
    match rec.source {
        SourceModel::Bytes(b) => b.len() as int,
        SourceModel::FilePath(_) => 0,
    }
}

/// The engine's diagnostic once a handle is opened and nothing has failed.
pub open spec fn diag_no_error() -> Seq<char> {
    "No error"@
}

/// The engine's diagnostic for a rejected source or argument.
pub open spec fn diag_invalid_argument() -> Seq<char> {
    "Invalid argument"@
}

/// The engine's diagnostic when a named member does not exist.
pub open spec fn diag_no_such_file() -> Seq<char> {
    "No such file"@
}

/// The engine's diagnostic when a member cannot be streamed because it is
/// still pending (registered but not yet finalized into the container).
pub open spec fn diag_entry_changed() -> Seq<char> {
    "Entry has been changed"@
}

/// A batch packer: the one-shot create–add–finalize composition, declared for
/// embedders to implement over their own persistence. Failures must come back
/// as errors; no implementation may halt the caller's process.
pub trait ZipPack {
    fn pack_file(batch_name: String, src: &str, filename: String) -> Result<(), OperationError>;
}

/// The open container behind an archive handle: the member listing and the
/// engine's last diagnostic string.
#[derive(Debug)]
struct Container {
    records: Vec<EntryRecord>,
    last_error: String,
}

/// The safe wrapper around one container handle.
#[derive(Debug)]
pub struct ZipFile {
    file: Option<Container>,
    filename: String,
}

impl ZipFile {
    /// Whether the archive currently holds an open container handle.
    pub closed spec fn is_open(self) -> bool {
        self.file is Some
    }

    /// The member listing, in the engine's order. Meaningful only while open.
    pub closed spec fn records(self) -> Seq<RecordModel> {
        records_view(self.file->Some_0.records@)
    }

    /// The engine's last diagnostic string. Meaningful only while open.
    pub closed spec fn last_error(self) -> Seq<char> {
        self.file->Some_0.last_error@
    }

    /// The filesystem location backing the archive.
    pub closed spec fn path(self) -> Seq<char> {
        self.filename@
    }

    /// Validity: an open archive lists uniquely and non-emptily named
    /// members, and the engine's diagnostic string is never empty.
    pub open spec fn wf(self) -> bool {
        self.is_open() ==> consistent_records(self.records()) && self.last_error().len() > 0
    }

    /// Opens a container. `existing` is the record image the embedding
    /// application loaded from `path`, or `None` where no file exists there.
    /// With `create` unset a missing container is an error; with it set a
    /// fresh empty container is made. An image whose names collide or are
    /// empty is rejected as inconsistent; an accepted image's members are all
    /// committed and can be streamed.
    pub fn open(path: &str, create: bool, existing: Option<Vec<EntryRecord>>) -> (r: Result<
        ZipFile,
        OpenError,
    >)
        ensures
            path@.len() == 0 ==> r == Err::<ZipFile, OpenError>(OpenError::InvalidArgument),
            path@.len() > 0 && existing is None && !create ==> r == Err::<ZipFile, OpenError>(
                OpenError::NotFound,
            ),
            path@.len() > 0 && existing is None && create ==> (r matches Ok(z) && z.wf()
                && z.is_open() && z.records() =~= Seq::<RecordModel>::empty() && z.path() == path@
                && z.last_error() == diag_no_error()),
            existing matches Some(image) ==> {
                &&& path@.len() > 0 && !consistent_records(records_view(image@)) ==> r == Err::<
                    ZipFile,
                    OpenError,
                >(OpenError::InconsistentContainer)
                &&& path@.len() > 0 && consistent_records(records_view(image@)) ==> (r matches Ok(z)
                    && z.wf() && z.is_open() && z.records() == committed_records(
                    records_view(image@),
                ) && z.path() == path@ && z.last_error() == diag_no_error())
            },
    {
        if path.is_empty() {
            return Err(OpenError::InvalidArgument);
        }
        match existing {
            None => {
                if !create {
                    Err(OpenError::NotFound)
                } else {
                    proof {
                        reveal_strlit("No error");
                    }
                    Ok(
                        ZipFile {
                            file: Some(
                                Container { records: Vec::new(), last_error: "No error".to_owned() },
                            ),
                            filename: path.to_owned(),
                        },
                    )
                }
            },
            Some(image) => {
                if !check_consistent(&image) {
                    return Err(OpenError::InconsistentContainer);
                }
                let committed = commit_all(image);
                proof {
                    reveal_strlit("No error");
                }
                Ok(
                    ZipFile {
                        file: Some(
                            Container { records: committed, last_error: "No error".to_owned() },
                        ),
                        filename: path.to_owned(),
                    },
                )
            },
        }
    }

    /// The filesystem location this archive was opened at.
    pub fn filename(&self) -> (r: &String)
        ensures
            r@ == self.path(),
    {
        &self.filename
    }

    /// Translates a raw engine status code: zero is success, anything else
    /// surfaces the engine's last diagnostic. Requires an open handle to
    /// query; fails with `NotOpen` otherwise.
    pub fn get_error(&self, code: i64) -> (r: Result<(), OperationError>)
        requires
            self.wf(),
        ensures
            code == 0 ==> r == Ok::<(), OperationError>(()),
            code != 0 && !self.is_open() ==> r == Err::<(), OperationError>(
                OperationError::NotOpen,
            ),
            code != 0 && self.is_open() ==> (r matches Err(e) && e matches
                OperationError::NativeFailure(m) && m@ == self.last_error() && m@.len() > 0),
    {
        if code == 0 {
            return Ok(());
        }
        match &self.file {
            None => Err(OperationError::NotOpen),
            Some(c) => Err(OperationError::NativeFailure(c.last_error.clone())),
        }
    }

    /// Finalizes and closes the archive, handing back the container image for
    /// the embedding application to persist. Idempotent: closing an archive
    /// that is already closed succeeds and changes nothing.
    pub fn close(&mut self) -> (r: Result<Option<Vec<EntryRecord>>, OperationError>)
        ensures
            r is Ok,
            final(self).path() == old(self).path(),
            !final(self).is_open(),
            final(self).wf(),
            !old(self).is_open() ==> r == Ok::<Option<Vec<EntryRecord>>, OperationError>(None)
                && *final(self) == *old(self),
            old(self).is_open() ==> (r matches Ok(img) && img matches Some(image) && records_view(
                image@,
            ) == old(self).records()),
    {
        match self.file.take() {
            None => Ok(None),
            Some(c) => Ok(Some(c.records)),
        }
    }

    /// Registers an in-memory byte source as a member named `filename`,
    /// overwriting a member of the same name. The engine rejects an empty
    /// name as an invalid argument.
    pub fn add_buffer(&mut self, data: &[u8], filename: &str) -> (r: Result<(), OperationError>)
        requires
            old(self).wf(),
        ensures
            final(self).wf(),
            final(self).is_open() == old(self).is_open(),
            final(self).path() == old(self).path(),
            !old(self).is_open() ==> r == Err::<(), OperationError>(OperationError::NotOpen)
                && *final(self) == *old(self),
            old(self).is_open() && filename@.len() == 0 ==> r == Err::<(), OperationError>(
                OperationError::AddFailed,
            ) && final(self).records() == old(self).records() && final(self).last_error()
                == diag_invalid_argument(),
            old(self).is_open() && filename@.len() > 0 ==> r == Ok::<(), OperationError>(())
                && final(self).records() == add_record(
                old(self).records(),
                RecordModel {
                    name: filename@,
                    source: SourceModel::Bytes(data@),
                    committed: false,
                },
            ) && final(self).last_error() == old(self).last_error(),
    {
        match &mut self.file {
            None => Err(OperationError::NotOpen),
            Some(c) => {
                if filename.is_empty() {
                    proof {
                        reveal_strlit("Invalid argument");
                    }
                    c.last_error = "Invalid argument".to_owned();
                    Err(OperationError::AddFailed)
                } else {
                    let rec = EntryRecord {
                        name: filename.to_owned(),
                        source: EntrySource::Bytes(vstd::slice::slice_to_vec(data)),
                        committed: false,
                    };
                    proof {
                        lemma_add_record_consistent(records_view(c.records@), rec@);
                    }
                    insert_record(&mut c.records, rec);
                    Ok(())
                }
            },
        }
    }

    /// Registers a filesystem path as a lazy member source: the engine reads
    /// the file's bytes only when the archive is finalized, so nothing is
    /// copied into memory here. An empty name or path is rejected as an
    /// invalid argument.
    pub fn add_file(&mut self, src: &str, filename: &str) -> (r: Result<(), OperationError>)
        requires
            old(self).wf(),
        ensures
            final(self).wf(),
            final(self).is_open() == old(self).is_open(),
            final(self).path() == old(self).path(),
            !old(self).is_open() ==> r == Err::<(), OperationError>(OperationError::NotOpen)
                && *final(self) == *old(self),
            old(self).is_open() && (filename@.len() == 0 || src@.len() == 0) ==> r == Err::<
                (),
                OperationError,
            >(OperationError::AddFailed) && final(self).records() == old(self).records()
                && final(self).last_error() == diag_invalid_argument(),
            old(self).is_open() && filename@.len() > 0 && src@.len() > 0 ==> r == Ok::<
                (),
                OperationError,
            >(()) && final(self).records() == add_record(
                old(self).records(),
                RecordModel {
                    name: filename@,
                    source: SourceModel::FilePath(src@),
                    committed: false,
                },
            ) && final(self).last_error() == old(self).last_error(),
    {
        match &mut self.file {
            None => Err(OperationError::NotOpen),
            Some(c) => {
                if filename.is_empty() || src.is_empty() {
                    proof {
                        reveal_strlit("Invalid argument");
                    }
                    c.last_error = "Invalid argument".to_owned();
                    Err(OperationError::AddFailed)
                } else {
                    let rec = EntryRecord {
                        name: filename.to_owned(),
                        source: EntrySource::FilePath(src.to_owned()),
                        committed: false,
                    };
                    proof {
                        lemma_add_record_consistent(records_view(c.records@), rec@);
                    }
                    insert_record(&mut c.records, rec);
                    Ok(())
                }
            },
        }
    }

    /// Resolves `filename` to its current table row: index, reported size,
    /// and the fields the model does not track as zero. A missing name
    /// surfaces the engine's diagnostic.
    pub fn file_stat(&mut self, filename: &str) -> (r: Result<FileStat, OperationError>)
        requires
            old(self).wf(),
        ensures
            final(self).wf(),
            final(self).is_open() == old(self).is_open(),
            final(self).path() == old(self).path(),
            final(self).records() == old(self).records(),
            !old(self).is_open() ==> r == Err::<FileStat, OperationError>(OperationError::NotOpen)
                && *final(self) == *old(self),
            old(self).is_open() && !has_name(old(self).records(), filename@) ==> (r matches Err(e)
                && e matches OperationError::NativeFailure(m) && m@ == diag_no_such_file()
                && m@.len() > 0) && final(self).last_error() == diag_no_such_file(),
            old(self).is_open() && has_name(old(self).records(), filename@) ==> (*final(self)
                == *old(self) && (r matches Ok(st) && st.name@ == filename@ && st.index as int
                == index_of_name(old(self).records(), filename@) && st.size as int == stat_size(
                lookup(old(self).records(), filename@),
            ) && st.comp_size == st.size && st.mtime == 0 && st.crc == 0 && st.comp_method == 0
                && st.encryption_method == 0 && st.flags == 0)),
    {
        match &mut self.file {
            None => Err(OperationError::NotOpen),
            Some(c) => {
                proof {
                    lemma_index_of_name(records_view(c.records@), filename@);
                }
                match find_index(&c.records, filename) {
                    None => {
                        proof {
                            reveal_strlit("No such file");
                        }
                        c.last_error = "No such file".to_owned();
                        Err(OperationError::NativeFailure("No such file".to_owned()))
                    },
                    Some(i) => {
                        let rec = &c.records[i];
                        let size: u64 = match &rec.source {
                            EntrySource::Bytes(b) => b.len() as u64,
                            EntrySource::FilePath(_) => 0,
                        };
                        Ok(
                            FileStat {
                                name: filename.to_owned(),
                                index: i as u64,
                                size,
                                comp_size: size,
                                mtime: 0,
                                crc: 0,
                                comp_method: 0,
                                encryption_method: 0,
                                flags: 0,
                            },
                        )
                    },
                }
            },
        }
    }

    /// Deletes the member named `filename`: resolves the name to its current
    /// index with a stat call, then deletes by index. A missing name surfaces
    /// the engine's diagnostic.
    pub fn delete_file(&mut self, filename: &str) -> (r: Result<(), OperationError>)
        requires
            old(self).wf(),
        ensures
            final(self).wf(),
            final(self).is_open() == old(self).is_open(),
            final(self).path() == old(self).path(),
            !old(self).is_open() ==> r == Err::<(), OperationError>(OperationError::NotOpen)
                && *final(self) == *old(self),
            old(self).is_open() && !has_name(old(self).records(), filename@) ==> (r matches Err(e)
                && e matches OperationError::NativeFailure(m) && m@ == diag_no_such_file()
                && m@.len() > 0) && final(self).records() == old(self).records()
                && final(self).last_error() == diag_no_such_file(),
            old(self).is_open() && has_name(old(self).records(), filename@) ==> r == Ok::<
                (),
                OperationError,
            >(()) && final(self).records() == delete_record(old(self).records(), filename@)
                && final(self).last_error() == old(self).last_error(),
    {
        let stat = match self.file_stat(filename) {
            Err(e) => {
                return Err(e);
            },
            Ok(stat) => stat,
        };
        proof {
            lemma_index_of_name(old(self).records(), filename@);
            lemma_delete_record_consistent(old(self).records(), filename@);
        }
        match &mut self.file {
            None => Err(OperationError::NotOpen),
            Some(c) => {
                let n = c.records.len();
                proof {
                    assert(stat.index as int == index_of_name(records_view(c.records@), filename@)
                        < n as int);
                }
                let i = stat.index as usize;
                let ghost before = c.records@;
                let _removed = c.records.remove(i);
                proof {
                    assert forall|p: int|
                        0 <= p < c.records@.len() implies records_view(c.records@)[p]
                        == delete_record(old(self).records(), filename@)[p] by {
                        if p < i as int {
                            assert(c.records@[p] == before[p]);
                        } else {
                            assert(c.records@[p] == before[p + 1]);
                        }
                    }
                    assert(records_view(c.records@) =~= delete_record(
                        old(self).records(),
                        filename@,
                    ));
                }
                Ok(())
            },
        }
    }

    /// Enumerates the current members, in the engine's listing order, as
    /// unopened entries. Re-calling re-queries the listing and reflects
    /// mutations made since.
    pub fn entries(&self) -> (r: Result<Vec<ZipEntry>, OperationError>)
        ensures
            !self.is_open() ==> r == Err::<Vec<ZipEntry>, OperationError>(OperationError::NotOpen),
            self.is_open() ==> (r matches Ok(v) && v@.len() == self.records().len() && forall|
                i: int,
            |
                0 <= i < v@.len() ==> (#[trigger] v@[i]).entry_name() == self.records()[i].name
                    && v@[i].stream() is None && !v@[i].open_flag()),
    {
        match &self.file {
            None => Err(OperationError::NotOpen),
            Some(c) => {
                let n = c.records.len();
                let mut out: Vec<ZipEntry> = Vec::new();
                let mut i: usize = 0;
                while i < n
                    invariant
                        n == c.records@.len(),
                        i <= n,
                        out@.len() == i,
                        forall|p: int|
                            0 <= p < i ==> (#[trigger] out@[p]).entry_name() == records_view(
                                c.records@,
                            )[p].name && out@[p].stream() is None && !out@[p].open_flag(),
                    decreases n - i,
                {
                    let entry = ZipEntry::new(None, c.records[i].name.as_str(), false);
                    out.push(entry);
                    i = i + 1;
                }
                Ok(out)
            },
        }
    }

    /// Finds the member named `entry_name`; with `open` set, also opens a
    /// read stream over its bytes. A name that is not listed is `None`, not
    /// an error. Only committed byte-backed members can be streamed: a member
    /// still pending (or backed by an unread filesystem path) surfaces the
    /// engine's changed-entry diagnostic.
    pub fn get_entry(&self, entry_name: &str, open: bool) -> (r: Result<
        Option<ZipEntry>,
        OperationError,
    >)
        requires
            self.wf(),
        ensures
            !self.is_open() ==> r == Err::<Option<ZipEntry>, OperationError>(
                OperationError::NotOpen,
            ),
            self.is_open() && !has_name(self.records(), entry_name@) ==> r == Ok::<
                Option<ZipEntry>,
                OperationError,
            >(None),
            self.is_open() && has_name(self.records(), entry_name@) && !open ==> (r matches Ok(oe)
                && oe matches Some(e) && e.entry_name() == entry_name@ && e.stream() is None
                && !e.open_flag()),
            self.is_open() && has_name(self.records(), entry_name@) && open ==> {
                let rec = lookup(self.records(), entry_name@);
                &&& (rec.committed && rec.source is Bytes) ==> {
                    &&& r matches Ok(oe)
                    &&& oe matches Some(e)
                    &&& e.entry_name() == entry_name@
                    &&& e.open_flag()
                    &&& e.stream() matches Some(s)
                    &&& s.bytes() == rec.source->Bytes_0
                    &&& s.cursor() == 0
                }
                &&& !(rec.committed && rec.source is Bytes) ==> (r matches Err(e) && e matches
                    OperationError::NativeFailure(m) && m@ == diag_entry_changed() && m@.len() > 0)
            },
    {
        match &self.file {
            None => Err(OperationError::NotOpen),
            Some(c) => {
                proof {
                    lemma_index_of_name(records_view(c.records@), entry_name@);
                }
                match find_index(&c.records, entry_name) {
                    None => Ok(None),
                    Some(i) => {
                        if !open {
                            Ok(Some(ZipEntry::new(None, entry_name, false)))
                        } else {
                            let rec = &c.records[i];
                            if !rec.committed {
                                proof {
                                    reveal_strlit("Entry has been changed");
                                }
                                return Err(
                                    OperationError::NativeFailure(
                                        "Entry has been changed".to_owned(),
                                    ),
                                );
                            }
                            match &rec.source {
                                EntrySource::FilePath(_) => {
                                    proof {
                                        reveal_strlit("Entry has been changed");
                                    }
                                    Err(
                                        OperationError::NativeFailure(
                                            "Entry has been changed".to_owned(),
                                        ),
                                    )
                                },
                                EntrySource::Bytes(b) => {
                                    let stream = EntryStream::new(
                                        vstd::slice::slice_to_vec(b.as_slice()),
                                    );
                                    Ok(Some(ZipEntry::new(Some(stream), entry_name, true)))
                                },
                            }
                        }
                    },
                }
            },
        }
    }

    /// One-shot convenience: create (or open) the container at `batch_name`,
    /// register the file at `src` as the member `filename`, and finalize.
    /// Hands back the container image to persist; every failure is a returned
    /// error, never a halt.
    pub fn pack_file(batch_name: String, src: &str, filename: String) -> (r: Result<
        Vec<EntryRecord>,
        OperationError,
    >)
        ensures
            batch_name@.len() == 0 ==> (r matches Err(e) && e matches
                OperationError::NativeFailure(m) && m@ == crate::errors::open_error_message_spec(
                OpenError::InvalidArgument,
            )),
            batch_name@.len() > 0 && (src@.len() == 0 || filename@.len() == 0) ==> r == Err::<
                Vec<EntryRecord>,
                OperationError,
            >(OperationError::AddFailed),
            batch_name@.len() > 0 && src@.len() > 0 && filename@.len() > 0 ==> (r matches Ok(image)
                && records_view(image@) =~= seq![
                    RecordModel {
                        name: filename@,
                        source: SourceModel::FilePath(src@),
                        committed: false,
                    },
                ]),
    {
        let mut archive = match ZipFile::open(batch_name.as_str(), true, None) {
            Err(e) => {
                return Err(OperationError::NativeFailure(e.message()));
            },
            Ok(archive) => archive,
        };
        match archive.add_file(src, filename.as_str()) {
            Err(e) => {
                return Err(e);
            },
            Ok(()) => (),
        }
        match archive.close() {
            Ok(Some(image)) => Ok(image),
            // Closing a just-opened archive always yields its image.
            Ok(None) => {
                proof {
                    assert(false);
                }
                Err(OperationError::NotOpen)
            },
            Err(e) => {
                proof {
                    assert(false);
                }
                Err(e)
            },
        }
    }
}

/// The index of the first member named `name`, scanning in listing order.
fn find_index(records: &Vec<EntryRecord>, name: &str) -> (r: Option<usize>)
    ensures
        r matches Some(i) ==> ((i as int) < records@.len() && i as int == index_of_name(
            records_view(records@),
            name@,
        )),
        r is None ==> !has_name(records_view(records@), name@),
{
    let ghost rs = records_view(records@);
    let wanted: String = name.to_owned();
    let n = records.len();
    let mut j: usize = 0;
    while j < n
        invariant
            n == records@.len(),
            rs == records_view(records@),
            wanted@ == name@,
            j <= n,
            forall|k: int| 0 <= k < j ==> rs[k].name != name@,
        decreases n - j,
    {
        if records[j].name == wanted {
            proof {
                assert(rs[j as int].name == name@);
                lemma_index_of_name(rs, name@);
            }
            return Some(j);
        }
        assert(rs[j as int].name != name@);
        j = j + 1;
    }
    proof {
        lemma_index_of_name(rs, name@);
    }
    None
}

/// Applies the overwrite-by-name policy: replaces the member that shares the
/// record's name, or appends the record at the end of the listing.
fn insert_record(records: &mut Vec<EntryRecord>, rec: EntryRecord)
    ensures
        records_view(final(records)@) == add_record(records_view(old(records)@), rec@),
{
    proof {
        lemma_index_of_name(records_view(records@), rec.name@);
    }
    let i = find_index(&*records, rec.name.as_str());
    match i {
        Some(i) => {
            records[i] = rec;
            proof {
                assert(records_view(records@) =~= add_record(
                    records_view(old(records)@),
                    rec@,
                ));
            }
        },
        None => {
            records.push(rec);
            proof {
                assert(records_view(records@) =~= add_record(
                    records_view(old(records)@),
                    rec@,
                ));
            }
        },
    }
}

impl Default for ZipFile {
    /// A closed archive with no backing path: every operation but `open`
    /// fails fast with `NotOpen` on it. The original owner of a container
    /// handle stays unique: a default value never aliases one.
    fn default() -> (z: Self)
        ensures
            !z.is_open(),
            z.path() == Seq::<char>::empty(),
            z.wf(),
    {
        ZipFile { file: None, filename: String::new() }
    }
}

/// Whether an image would be accepted by the engine's consistency check:
/// member names unique and non-empty.
fn check_consistent(image: &Vec<EntryRecord>) -> (r: bool)
    ensures
        r == consistent_records(records_view(image@)),
{
    let ghost rs = records_view(image@);
    let n = image.len();
    let mut i: usize = 0;
    while i < n
        invariant
            n == image@.len(),
            rs == records_view(image@),
            i <= n,
            forall|p: int| 0 <= p < i ==> rs[p].name.len() > 0,
            forall|p: int, q: int| 0 <= p < q < n && p < i ==> rs[p].name != rs[q].name,
        decreases n - i,
    {
        if image[i].name.as_str().is_empty() {
            assert(rs[i as int].name.len() == 0);
            return false;
        }
        let mut j: usize = i + 1;
        while j < n
            invariant
                n == image@.len(),
                rs == records_view(image@),
                i < j <= n,
                forall|q: int| i < q < j ==> rs[i as int].name != rs[q].name,
            decreases n - j,
        {
            if image[i].name == image[j].name {
                assert(rs[i as int].name == rs[j as int].name);
                return false;
            }
            assert(rs[i as int].name != rs[j as int].name);
            j = j + 1;
        }
        assert(rs[i as int].name.len() > 0);
        i = i + 1;
    }
    true
}

/// Marks every record of a freshly opened image as committed.
fn commit_all(image: Vec<EntryRecord>) -> (r: Vec<EntryRecord>)
    ensures
        records_view(r@) == committed_records(records_view(image@)),
{
    let ghost orig = image@;
    let mut image = image;
    let n = image.len();
    let mut i: usize = 0;
    while i < n
        invariant
            n == image@.len(),
            orig.len() == n,
            i <= n,
            forall|p: int| 0 <= p < n ==> #[trigger] image@[p].name == orig[p].name,
            forall|p: int| 0 <= p < n ==> #[trigger] image@[p].source == orig[p].source,
            forall|p: int| 0 <= p < i ==> #[trigger] image@[p].committed,
            forall|p: int| i <= p < n ==> #[trigger] image@[p].committed == orig[p].committed,
        decreases n - i,
    {
        image[i].committed = true;
        i = i + 1;
    }
    proof {
        assert forall|p: int| 0 <= p < n implies records_view(image@)[p] == committed_records(
            records_view(orig),
        )[p] by {
            assert(records_view(image@)[p] == image@[p]@);
            assert(committed_records(records_view(orig))[p] == RecordModel {
                name: orig[p]@.name,
                source: orig[p]@.source,
                committed: true,
            });
        }
        assert(records_view(image@) =~= committed_records(records_view(orig)));
    }
    image
}

} // verus!
