//! A safe, verified lifecycle wrapper around a handle-based zip container
//! engine.
//!
//! The library owns the archive and entry-stream handles, guards every
//! operation against use after close, keeps close idempotent, and translates
//! the engine's sentinel failures into a structured error taxonomy. The
//! container's on-disk layout and compression are the engine's business and
//! stay outside this crate; persistence is handled by the embedding
//! application, which exchanges plain record images with [`ZipFile::open`]
//! and [`ZipFile::close`].

mod archive;
mod entry;
mod errors;
mod laws;
mod record;

pub use archive::FileStat;
pub use archive::ZipFile;
pub use archive::ZipPack;
pub use archive::diag_entry_changed;
pub use archive::diag_invalid_argument;
pub use archive::diag_no_error;
pub use archive::diag_no_such_file;
pub use archive::stat_size;

pub use entry::EntryStream;
pub use entry::ReadPoll;
pub use entry::ZipEntry;
pub use entry::msg_already_open;
pub use entry::read_end;
pub use entry::read_out;

pub use errors::OpenError;
pub use errors::OperationError;
pub use errors::open_error_message_spec;
pub use errors::open_error_of_code;
pub use errors::operation_error_message_spec;
pub use errors::STATUS_EXISTS;
pub use errors::STATUS_INCONS;
pub use errors::STATUS_INVAL;
pub use errors::STATUS_MEMORY;
pub use errors::STATUS_NOENT;
pub use errors::STATUS_NOZIP;
pub use errors::STATUS_OPEN;
pub use errors::STATUS_READ;
pub use errors::STATUS_SEEK;

pub use laws::drained;
pub use laws::lemma_add_record_other_names;
pub use laws::lemma_entry_independence;
pub use laws::lemma_enumeration_reflects_mutation;
pub use laws::lemma_full_drain;
pub use laws::lemma_open_read_close_round_trip;
pub use laws::lemma_reads_drain;
pub use laws::lemma_total_len_nonneg;
pub use laws::nonneg_lens;
pub use laws::total_len;

pub use record::EntryRecord;
pub use record::EntrySource;
pub use record::RecordModel;
pub use record::SourceModel;
pub use record::add_record;
pub use record::committed_records;
pub use record::consistent_records;
pub use record::delete_record;
pub use record::has_name;
pub use record::index_of_name;
pub use record::lemma_add_record_consistent;
pub use record::lemma_delete_record_consistent;
pub use record::lemma_index_of_name;
pub use record::lemma_committed_records_names;
pub use record::lookup;
pub use record::nonempty_names;
pub use record::records_view;
pub use record::unique_names;
