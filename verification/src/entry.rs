//! Entries and their read streams.
//!
//! A [`ZipEntry`] stands for one member of an archive. It is created unopened
//! by enumeration, or already open by [`crate::ZipFile::get_entry`]; an open
//! entry owns an [`EntryStream`], the analogue of the engine's stream handle,
//! which yields the member's bytes in order. Closing an entry releases the
//! stream and is idempotent; reading past the end returns an empty chunk, the
//! conventional end-of-stream signal.

use vstd::prelude::*;
use crate::archive::ZipFile;
use crate::archive::diag_no_such_file;
use crate::archive::diag_entry_changed;
use crate::errors::OperationError;
use crate::record::SourceModel;
use crate::record::has_name;
use crate::record::lookup;

verus! {

/// The message rejecting a redundant open: an entry that is already open must
/// be closed before a fresh stream is requested. This is the wrapper's own
/// fail-fast rule, chosen over a silent no-op for clarity.
pub open spec fn msg_already_open() -> Seq<char> {
    "Entry is already open"@
}

/// Where a read over `data` that starts at `pos` and asks for `len` bytes
/// stops.
pub open spec fn read_end(data: Seq<u8>, pos: int, len: int) -> int {
    vstd::math::min(pos + len, data.len() as int)
}

/// The bytes such a read hands back: the next `len` bytes, or fewer at the
/// end of the stream.
pub open spec fn read_out(data: Seq<u8>, pos: int, len: int) -> Seq<u8> {
    data.subrange(pos, read_end(data, pos, len))
}

/// An open read stream over one member's bytes: the data and a cursor.
#[derive(Debug)]
pub struct EntryStream {
    data: Vec<u8>,
    pos: usize,
}

impl EntryStream {
    #[verifier::type_invariant]
    spec fn inv(self) -> bool {
        self.pos <= self.data.len()
    }

    /// The full content the stream was opened over.
    pub closed spec fn bytes(self) -> Seq<u8> {
        self.data@
    }

    /// How many bytes have been read so far.
    pub closed spec fn cursor(self) -> int {
        self.pos as int
    }

    /// Opens a fresh stream over `data`, positioned at the start.
    pub fn new(data: Vec<u8>) -> (s: Self)
        ensures
            s.bytes() == data@,
            s.cursor() == 0,
    {
        EntryStream { data, pos: 0 }
    }
}

/// How a cooperative read reports: the underlying engine read always runs to
/// completion synchronously, so a result is always ready. `Pending` exists
/// only to complete the polling shape; no operation of this crate returns it.
#[derive(Debug)]
pub enum ReadPoll {
    Pending,
    Ready(Result<Vec<u8>, OperationError>),
}

/// One logical member of an archive and its (optionally open) read stream.
#[derive(Debug)]
pub struct ZipEntry {
    file: Option<EntryStream>,
    name: String,
    is_open: bool,
}

impl ZipEntry {
    /// The stream handle, if one is open.
    pub closed spec fn stream(self) -> Option<EntryStream> {
        self.file
    }

    /// The member's logical name.
    pub closed spec fn entry_name(self) -> Seq<char> {
        self.name@
    }

    /// Whether the entry believes its stream is open.
    pub closed spec fn open_flag(self) -> bool {
        self.is_open
    }

    /// Builds an entry; enumeration passes no stream, a successful open
    /// passes one.
    pub fn new(file: Option<EntryStream>, name: &str, is_open: bool) -> (e: Self)
        ensures
            e.stream() == file,
            e.entry_name() == name@,
            e.open_flag() == is_open,
    {
        ZipEntry { file, name: name.to_owned(), is_open }
    }

    /// The member's logical name; stable for the entry's lifetime regardless
    /// of archive mutation.
    pub fn name(&self) -> (r: String)
        ensures
            r@ == self.entry_name(),
    {
        self.name.clone()
    }

    /// Requests a read stream for this entry's name from the parent archive's
    /// handle. Fails with `NotOpen` if the parent has no handle; fails with
    /// the engine's diagnostic if the name is not listed or the member cannot
    /// be streamed; fails — rather than silently doing nothing — if this
    /// entry is already open. A fresh open against a still-valid parent is
    /// the only transition back to the open state after a close.
    pub fn open(&mut self, archive: &ZipFile) -> (r: Result<(), OperationError>)
        requires
            archive.wf(),
        ensures
            final(self).entry_name() == old(self).entry_name(),
            old(self).open_flag() ==> (r matches Err(e) && e matches
                OperationError::NativeFailure(m) && m@ == msg_already_open() && m@.len() > 0)
                && *final(self) == *old(self),
            !old(self).open_flag() && !archive.is_open() ==> r == Err::<(), OperationError>(
                OperationError::NotOpen,
            ) && *final(self) == *old(self),
            !old(self).open_flag() && archive.is_open() && !has_name(
                archive.records(),
                old(self).entry_name(),
            ) ==> (r matches Err(e) && e matches OperationError::NativeFailure(m) && m@
                == diag_no_such_file() && m@.len() > 0) && *final(self) == *old(self),
            !old(self).open_flag() && archive.is_open() && has_name(
                archive.records(),
                old(self).entry_name(),
            ) ==> {
                let rec = lookup(archive.records(), old(self).entry_name());
                &&& (rec.committed && rec.source is Bytes) ==> {
                    &&& r == Ok::<(), OperationError>(())
                    &&& final(self).open_flag()
                    &&& final(self).stream() matches Some(s)
                    &&& s.bytes() == rec.source->Bytes_0
                    &&& s.cursor() == 0
                }
                &&& !(rec.committed && rec.source is Bytes) ==> (r matches Err(e) && e matches
                    OperationError::NativeFailure(m) && m@ == diag_entry_changed() && m@.len() > 0)
                    && *final(self) == *old(self)
            },
    {
        if self.is_open {
            proof {
                reveal_strlit("Entry is already open");
            }
            return Err(OperationError::NativeFailure("Entry is already open".to_owned()));
        }
        match archive.get_entry(self.name.as_str(), true) {
            Err(e) => {
                proof {
                    reveal_strlit("Entry has been changed");
                }
                Err(e)
            },
            Ok(None) => {
                proof {
                    reveal_strlit("No such file");
                }
                Err(OperationError::NativeFailure("No such file".to_owned()))
            },
            Ok(Some(opened)) => {
                self.file = opened.file;
                self.is_open = true;
                Ok(())
            },
        }
    }

    /// Releases the stream handle. Idempotent: closing an entry that is not
    /// open changes nothing.
    pub fn close(&mut self)
        ensures
            final(self).entry_name() == old(self).entry_name(),
            !old(self).open_flag() ==> *final(self) == *old(self),
            old(self).open_flag() && old(self).stream() is Some ==> final(self).stream()
                is None && !final(self).open_flag(),
            old(self).open_flag() && old(self).stream() is None ==> *final(self) == *old(self),
    {
        if !self.is_open {
            return ;
        }
        if self.file.is_some() {
            self.file = None;
            self.is_open = false;
        }
    }

    /// Reads up to `len` bytes from the stream and advances the cursor.
    /// A shorter (possibly empty) chunk signals the end of the stream, not an
    /// error; an entry without an open stream fails with `NotOpen`.
    pub fn read(&mut self, len: usize) -> (r: Result<Vec<u8>, OperationError>)
        ensures
            final(self).entry_name() == old(self).entry_name(),
            final(self).open_flag() == old(self).open_flag(),
            old(self).stream() is None ==> r == Err::<Vec<u8>, OperationError>(
                OperationError::NotOpen,
            ) && *final(self) == *old(self),
            old(self).stream() matches Some(s) ==> {
                &&& r matches Ok(out) && out@ == read_out(s.bytes(), s.cursor(), len as int)
                &&& final(self).stream() matches Some(t) && t.bytes() == s.bytes() && t.cursor()
                    == read_end(s.bytes(), s.cursor(), len as int)
            },
    {
        match &mut self.file {
            None => Err(OperationError::NotOpen),
            Some(s) => {
                proof {
                    use_type_invariant(&*s);
                }
                let remaining: usize = s.data.len() - s.pos;
                let take: usize = if len < remaining {
                    len
                } else {
                    remaining
                };
                let mut out: Vec<u8> = Vec::new();
                let mut i: usize = 0;
                while i < take
                    invariant
                        i <= take,
                        s.pos + take <= s.data.len(),
                        out@ == s.data@.subrange(s.pos as int, s.pos + i),
                    decreases take - i,
                {
                    out.push(s.data[s.pos + i]);
                    assert(out@ == s.data@.subrange(s.pos as int, s.pos + i + 1));
                    i = i + 1;
                }
                s.pos = s.pos + take;
                Ok(out)
            },
        }
    }

    /// The cooperative-completion face of [`ZipEntry::read`]: byte-for-byte
    /// the same semantics, reported as an always-ready poll. The underlying
    /// read is synchronous; the suspension point is illusory.
    pub fn poll_read(&mut self, len: usize) -> (r: ReadPoll)
        ensures
            final(self).entry_name() == old(self).entry_name(),
            final(self).open_flag() == old(self).open_flag(),
            r is Ready,
            old(self).stream() is None ==> r == ReadPoll::Ready(
                Err::<Vec<u8>, OperationError>(OperationError::NotOpen),
            ) && *final(self) == *old(self),
            old(self).stream() matches Some(s) ==> {
                &&& r matches ReadPoll::Ready(inner)
                &&& inner matches Ok(out) && out@ == read_out(s.bytes(), s.cursor(), len as int)
                &&& final(self).stream() matches Some(t) && t.bytes() == s.bytes() && t.cursor()
                    == read_end(s.bytes(), s.cursor(), len as int)
            },
    {
        ReadPoll::Ready(self.read(len))
    }
}

} // verus!
