//! Turning the engine's status signal into a structured error.
//!
//! The engine answers every call with one integer. Zero and positive values
//! mean success, and some calls use the positive value to carry an answer,
//! such as the keyslot that opened. A negative value is a negated errno
//! number. This module fixes, once and for all, which error kind each
//! negative value stands for.

use vstd::prelude::*;

verus! {

/// Operation not permitted: the credentials opened no keyslot.
pub const EPERM: i32 = 1;

/// No such file or directory: the device carries no header.
pub const ENOENT: i32 = 2;

/// Interrupted call.
pub const EINTR: i32 = 4;

/// Input/output error on the backing storage.
pub const EIO: i32 = 5;

/// Device or resource busy.
pub const EBUSY: i32 = 16;

/// The mapping name exists already.
pub const EEXIST: i32 = 17;

/// No such device: the mapping name is not active.
pub const ENODEV: i32 = 19;

/// Invalid argument.
pub const EINVAL: i32 = 22;

/// Function not implemented.
pub const ENOSYS: i32 = 38;

/// Bad message: the header fails its integrity checks.
pub const EBADMSG: i32 = 74;

/// Operation not supported for this header type or version.
pub const ENOTSUP: i32 = 95;

/// Structure needs cleaning: the header is damaged.
pub const EUCLEAN: i32 = 117;

/// The closed set of error kinds that callers see.
#[derive(Clone, Copy, Debug, PartialEq, Eq, Structural)]
pub enum ErrorKind {
    /// A bad parameter or parameter combination.
    InvalidArgument,
    /// The device carries no header.
    HeaderNotFound,
    /// The header is damaged; only an explicit repair can mend it.
    HeaderCorrupt,
    /// No keyslot opens with the credentials given.
    WrongCredentials,
    /// The handle, the lock or the mapping is in use.
    DeviceBusy,
    /// The backing storage failed.
    IoError,
    /// The mapping name is not active.
    NotActive,
    /// The mapping name is active already.
    AlreadyActive,
    /// The work was stopped on request.
    Interrupted,
    /// The header type or version does not offer the operation.
    Unsupported,
}

/// An error of this library: its kind, and the engine's status where the
/// engine raised it.
#[derive(Clone, Copy, Debug, PartialEq, Eq, Structural)]
pub struct LibcryptErr {
    /// What went wrong.
    pub kind: ErrorKind,
    /// The negative status that the engine returned, or zero where the
    /// library refused the operation before it asked the engine.
    pub status: i32,
}

/// The error kind that a status stands for when it is read as a failure.
/// Every status that the table does not name is a storage failure.
pub open spec fn kind_of_status(status: int) -> ErrorKind {
    if status == -EPERM {
        ErrorKind::WrongCredentials
    } else if status == -ENOENT {
        ErrorKind::HeaderNotFound
    } else if status == -EINTR {
        ErrorKind::Interrupted
    } else if status == -EBUSY {
        ErrorKind::DeviceBusy
    } else if status == -EEXIST {
        ErrorKind::AlreadyActive
    } else if status == -ENODEV {
        ErrorKind::NotActive
    } else if status == -EINVAL {
        ErrorKind::InvalidArgument
    } else if status == -ENOSYS || status == -ENOTSUP {
        ErrorKind::Unsupported
    } else if status == -EBADMSG || status == -EUCLEAN {
        ErrorKind::HeaderCorrupt
    } else {
        ErrorKind::IoError
    }
}

/// The error that the library raises itself, before the engine is asked.
pub open spec fn refusal(kind: ErrorKind) -> LibcryptErr {
    LibcryptErr { kind, status: 0 }
}

/// The error that a negative engine status turns into.
pub open spec fn engine_error(status: i32) -> LibcryptErr {
    LibcryptErr { kind: kind_of_status(status as int), status }
}

/// What a status means for a call whose positive answers carry a value.
pub open spec fn status_outcome(status: i32) -> Result<i32, LibcryptErr> {
    if status < 0 {
        Err(engine_error(status))
    } else {
        Ok(status)
    }
}

/// The words that explain an error kind to a person.
pub open spec fn kind_text(kind: ErrorKind) -> Seq<char> {
    match kind {
        ErrorKind::InvalidArgument => "invalid argument"@,
        ErrorKind::HeaderNotFound => "no header on the device"@,
        ErrorKind::HeaderCorrupt => "the header is corrupt"@,
        ErrorKind::WrongCredentials => "no keyslot opens with these credentials"@,
        ErrorKind::DeviceBusy => "the device is busy"@,
        ErrorKind::IoError => "input/output error"@,
        ErrorKind::NotActive => "the mapping is not active"@,
        ErrorKind::AlreadyActive => "the mapping is already active"@,
        ErrorKind::Interrupted => "interrupted on request"@,
        ErrorKind::Unsupported => "not supported by this header type"@,
    }
}

impl ErrorKind {
    /// The kind that a status of the engine stands for when it is read as
    /// a failure.
    pub fn of_status(status: i32) -> (kind: ErrorKind)
        ensures
            kind == kind_of_status(status as int),
    {
        if status == -EPERM {
            ErrorKind::WrongCredentials
        } else if status == -ENOENT {
            ErrorKind::HeaderNotFound
        } else if status == -EINTR {
            ErrorKind::Interrupted
        } else if status == -EBUSY {
            ErrorKind::DeviceBusy
        } else if status == -EEXIST {
            ErrorKind::AlreadyActive
        } else if status == -ENODEV {
            ErrorKind::NotActive
        } else if status == -EINVAL {
            ErrorKind::InvalidArgument
        } else if status == -ENOSYS || status == -ENOTSUP {
            ErrorKind::Unsupported
        } else if status == -EBADMSG || status == -EUCLEAN {
            ErrorKind::HeaderCorrupt
        } else {
            ErrorKind::IoError
        }
    }

    /// A short explanation of the kind.
    pub fn text(self) -> (words: String)
        ensures
            words@ == kind_text(self),
    {
        match self {
            ErrorKind::InvalidArgument => "invalid argument".to_owned(),
            ErrorKind::HeaderNotFound => "no header on the device".to_owned(),
            ErrorKind::HeaderCorrupt => "the header is corrupt".to_owned(),
            ErrorKind::WrongCredentials => "no keyslot opens with these credentials".to_owned(),
            ErrorKind::DeviceBusy => "the device is busy".to_owned(),
            ErrorKind::IoError => "input/output error".to_owned(),
            ErrorKind::NotActive => "the mapping is not active".to_owned(),
            ErrorKind::AlreadyActive => "the mapping is already active".to_owned(),
            ErrorKind::Interrupted => "interrupted on request".to_owned(),
            ErrorKind::Unsupported => "not supported by this header type".to_owned(),
        }
    }
}

impl LibcryptErr {
    /// An error that the library raises before it asks the engine.
    pub fn refused(kind: ErrorKind) -> (e: LibcryptErr)
        ensures
            e == refusal(kind),
    {
        LibcryptErr { kind, status: 0 }
    }

    /// The error for a status of the engine that is read as a failure.
    pub fn from_status(status: i32) -> (e: LibcryptErr)
        ensures
            e == engine_error(status),
    {
        LibcryptErr { kind: ErrorKind::of_status(status), status }
    }

    /// The human-readable detail of the error. The library explains its own
    /// refusals; for an error that the engine raised there is no detail
    /// beyond the status itself.
    pub fn detail(&self) -> (words: Option<String>)
        ensures
            words is Some <==> self.status == 0,
            words matches Some(w) ==> w@ == kind_text(self.kind),
    {
        if self.status == 0 {
            Some(self.kind.text())
        } else {
            None
        }
    }
}

/// Reads the status of a call that answers with success or failure only.
/// Every status that is not negative is success.
pub fn errno(status: i32) -> (r: Result<(), LibcryptErr>)
    ensures
        status >= 0 ==> r == Ok::<(), LibcryptErr>(()),
        status < 0 ==> r == Err::<(), LibcryptErr>(engine_error(status)),
{
    if status < 0 {
        Err(LibcryptErr::from_status(status))
    } else {
        Ok(())
    }
}

/// Reads the status of a call whose positive answers carry a value, such as
/// the index of the keyslot that opened.
pub fn errno_int_success(status: i32) -> (r: Result<i32, LibcryptErr>)
    ensures
        r == status_outcome(status),
{
    if status < 0 {
        Err(LibcryptErr::from_status(status))
    } else {
        Ok(status)
    }
}

/// A negative status always reads as an error of exactly one kind, and a
/// status that is not negative never reads as an error.
pub proof fn status_reading_is_total(status: i32)
    ensures
        status < 0 <==> status_outcome(status) is Err,
        status >= 0 ==> status_outcome(status) == Ok::<i32, LibcryptErr>(status),
        status < 0 ==> status_outcome(status)->Err_0.status == status,
{
}

} // verus!
