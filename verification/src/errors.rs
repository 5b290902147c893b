//! Error taxonomy for the archive wrapper.
//!
//! The native container engine signals failure through sentinel values: a
//! null handle together with a numeric status code at open time, and negative
//! return codes plus a per-handle diagnostic string afterwards. This module
//! turns those sentinels into a closed set of structured error kinds so that
//! callers can match on the kind instead of parsing strings.

use vstd::prelude::*;

verus! {

/// Status codes the engine reports when opening a container fails.
pub const STATUS_SEEK: i32 = 4;

pub const STATUS_READ: i32 = 5;

pub const STATUS_NOENT: i32 = 9;

pub const STATUS_EXISTS: i32 = 10;

pub const STATUS_OPEN: i32 = 11;

pub const STATUS_MEMORY: i32 = 14;

pub const STATUS_INVAL: i32 = 18;

pub const STATUS_NOZIP: i32 = 19;

pub const STATUS_INCONS: i32 = 21;

/// Why opening a container failed, mapped one-to-one from the engine's
/// open-time status codes.
#[derive(Clone, Debug, PartialEq, Eq)]
pub enum OpenError {
    AlreadyExists,
    InconsistentContainer,
    InvalidArgument,
    OutOfMemory,
    NotFound,
    NotAZipContainer,
    CannotOpen,
    ReadFailure,
    SeekUnsupported,
    Unknown,
}

/// Why an operation on an already-constructed archive or entry failed.
///
/// `NotOpen` guards every operation attempted on a closed handle. The
/// message-carrying variants surface the engine's own diagnostic text.
#[derive(Clone, Debug, PartialEq, Eq)]
pub enum OperationError {
    NotOpen,
    AddFailed,
    DeleteFailed,
    StatFailed,
    CloseFailed(String),
    NativeFailure(String),
}

/// The open-time error kind a given engine status code denotes.
pub open spec fn open_error_of_code(code: i32) -> OpenError {
    if code == STATUS_EXISTS {
        OpenError::AlreadyExists
    } else if code == STATUS_INCONS {
        OpenError::InconsistentContainer
    } else if code == STATUS_INVAL {
        OpenError::InvalidArgument
    } else if code == STATUS_MEMORY {
        OpenError::OutOfMemory
    } else if code == STATUS_NOENT {
        OpenError::NotFound
    } else if code == STATUS_NOZIP {
        OpenError::NotAZipContainer
    } else if code == STATUS_OPEN {
        OpenError::CannotOpen
    } else if code == STATUS_READ {
        OpenError::ReadFailure
    } else if code == STATUS_SEEK {
        OpenError::SeekUnsupported
    } else {
        OpenError::Unknown
    }
}

/// The presentation message for each open-time error kind.
pub open spec fn open_error_message_spec(e: OpenError) -> Seq<char> {
    match e {
        OpenError::AlreadyExists => "The file specified by path exists and exclusive creation is set"@,
        OpenError::InconsistentContainer => "Inconsistencies were found in the file specified by path"@,
        OpenError::InvalidArgument => "The path argument is invalid"@,
        OpenError::OutOfMemory => "Required memory could not be allocated"@,
        OpenError::NotFound => "The file specified by path does not exist and create is not set"@,
        OpenError::NotAZipContainer => "The file specified by path is not a zip archive"@,
        OpenError::CannotOpen => "The file specified by path could not be opened"@,
        OpenError::ReadFailure => "A read error occurred"@,
        OpenError::SeekUnsupported => "The file specified by path does not allow seeks"@,
        OpenError::Unknown => "Unexpected error while trying to open the zip"@,
    }
}

/// The presentation message for each operation error kind. The variants that
/// carry the engine's diagnostic surface it verbatim.
pub open spec fn operation_error_message_spec(e: OperationError) -> Seq<char> {
    match e {
        OperationError::NotOpen => "Zip file is not open"@,
        OperationError::AddFailed => "Unable to add the source to the zip"@,
        OperationError::DeleteFailed => "Unable to delete the entry"@,
        OperationError::StatFailed => "Unable to stat the entry"@,
        OperationError::CloseFailed(m) => m@,
        OperationError::NativeFailure(m) => m@,
    }
}

impl OpenError {
    /// Translates an engine status code into its structured kind.
    pub fn from_code(code: i32) -> (r: OpenError)
        ensures
            r == open_error_of_code(code),
    {
        if code == STATUS_EXISTS {
            OpenError::AlreadyExists
        } else if code == STATUS_INCONS {
            OpenError::InconsistentContainer
        } else if code == STATUS_INVAL {
            OpenError::InvalidArgument
        } else if code == STATUS_MEMORY {
            OpenError::OutOfMemory
        } else if code == STATUS_NOENT {
            OpenError::NotFound
        } else if code == STATUS_NOZIP {
            OpenError::NotAZipContainer
        } else if code == STATUS_OPEN {
            OpenError::CannotOpen
        } else if code == STATUS_READ {
            OpenError::ReadFailure
        } else if code == STATUS_SEEK {
            OpenError::SeekUnsupported
        } else {
            OpenError::Unknown
        }
    }

    /// The message shown for this error kind.
    pub fn message(&self) -> (r: String)
        ensures
            r@ == open_error_message_spec(*self),
    {
        match self {
            OpenError::AlreadyExists => "The file specified by path exists and exclusive creation is set".to_owned(),
            OpenError::InconsistentContainer => "Inconsistencies were found in the file specified by path".to_owned(),
            OpenError::InvalidArgument => "The path argument is invalid".to_owned(),
            OpenError::OutOfMemory => "Required memory could not be allocated".to_owned(),
            OpenError::NotFound => "The file specified by path does not exist and create is not set".to_owned(),
            OpenError::NotAZipContainer => "The file specified by path is not a zip archive".to_owned(),
            OpenError::CannotOpen => "The file specified by path could not be opened".to_owned(),
            OpenError::ReadFailure => "A read error occurred".to_owned(),
            OpenError::SeekUnsupported => "The file specified by path does not allow seeks".to_owned(),
            OpenError::Unknown => "Unexpected error while trying to open the zip".to_owned(),
        }
    }
}

impl OperationError {
    /// The message shown for this error kind; for the message-carrying
    /// variants this is the engine's diagnostic itself.
    pub fn message(&self) -> (r: String)
        ensures
            r@ == operation_error_message_spec(*self),
    {
        match self {
            OperationError::NotOpen => "Zip file is not open".to_owned(),
            OperationError::AddFailed => "Unable to add the source to the zip".to_owned(),
            OperationError::DeleteFailed => "Unable to delete the entry".to_owned(),
            OperationError::StatFailed => "Unable to stat the entry".to_owned(),
            OperationError::CloseFailed(m) => m.clone(),
            OperationError::NativeFailure(m) => m.clone(),
        }
    }
}

} // verus!
