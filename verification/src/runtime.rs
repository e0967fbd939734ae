//! The live state of a mapping.
//!
//! A status is never answered from memory: it is what the engine reports at
//! the moment of the query, read into a snapshot. The handle only notes
//! what the report reveals of the name.

use crate::device::{CryptDevice, DeviceModel};
use crate::err::{engine_error, refusal, ErrorKind, LibcryptErr};
use crate::sound::sound;
use crate::text::{c_text, is_c_text};
use vstd::prelude::*;

verus! {

/// The engine's code for a mapping that is not active.
pub const CRYPT_INACTIVE: i32 = 1;

/// The engine's code for an active mapping.
pub const CRYPT_ACTIVE: i32 = 2;

/// The engine's code for an active mapping that is in use.
pub const CRYPT_BUSY: i32 = 3;

/// What the engine says of a mapping name.
#[derive(Clone, Copy, Debug, PartialEq, Eq, Structural)]
pub enum CryptStatusInfo {
    /// The name is not valid in this context.
    Invalid,
    /// No mapping of that name is active.
    Inactive,
    /// The mapping is active.
    Active,
    /// The mapping is active and in use.
    Busy,
}

/// A snapshot of the runtime condition of a mapping.
#[derive(Clone, Copy, Debug, PartialEq, Eq, Structural)]
pub struct CryptDeviceStatus {
    /// Whether the mapping is active
    pub info: CryptStatusInfo,
    /// The size of the mapping in sectors; 0 unless the mapping is active
    pub size: u64,
    /// Whether the mapping is suspended, its key wiped from the kernel;
    /// false unless the mapping is active
    pub suspended: bool,
}

/// What a status code of the engine means. A code that the engine does not
/// define reads as invalid.
pub open spec fn status_info(code: i32) -> CryptStatusInfo {
    if code == CRYPT_INACTIVE {
        CryptStatusInfo::Inactive
    } else if code == CRYPT_ACTIVE {
        CryptStatusInfo::Active
    } else if code == CRYPT_BUSY {
        CryptStatusInfo::Busy
    } else {
        CryptStatusInfo::Invalid
    }
}

/// The snapshot for a report of the engine. Size and suspension are taken
/// from the report only where the mapping is active.
pub open spec fn snapshot(code: i32, size: u64, suspended: bool) -> CryptDeviceStatus {
    let info = status_info(code);
    if info == CryptStatusInfo::Active || info == CryptStatusInfo::Busy {
        CryptDeviceStatus { info, size, suspended }
    } else {
        CryptDeviceStatus { info, size: 0, suspended: false }
    }
}

/// What a status query yields. The handle must be free and the name able
/// to cross to the engine; a negative code is the engine's error.
pub open spec fn status_result(
    d: DeviceModel,
    name: Seq<char>,
    code: i32,
    size: u64,
    suspended: bool,
) -> Result<CryptDeviceStatus, LibcryptErr> {
    if d.outstanding is Some {
        Err(refusal(ErrorKind::DeviceBusy))
    } else if !c_text(name) {
        Err(refusal(ErrorKind::InvalidArgument))
    } else if code < 0 {
        Err(engine_error(code))
    } else {
        Ok(snapshot(code, size, suspended))
    }
}

/// The handle after a status query: it knows the name to be active, or not
/// to be, as the report says. A report that says neither changes nothing.
pub open spec fn observed(
    d: DeviceModel,
    name: Seq<char>,
    code: i32,
    size: u64,
    suspended: bool,
) -> DeviceModel {
    match status_result(d, name, code, size, suspended) {
        Ok(s) => match s.info {
            CryptStatusInfo::Active | CryptStatusInfo::Busy => DeviceModel {
                mappings: d.mappings.insert(name, suspended),
                ..d
            },
            CryptStatusInfo::Inactive => DeviceModel { mappings: d.mappings.remove(name), ..d },
            CryptStatusInfo::Invalid => d,
        },
        Err(_) => d,
    }
}

impl CryptStatusInfo {
    /// Reads a status code of the engine.
    pub fn of_code(code: i32) -> (info: CryptStatusInfo)
        ensures
            info == status_info(code),
    {
        if code == CRYPT_INACTIVE {
            CryptStatusInfo::Inactive
        } else if code == CRYPT_ACTIVE {
            CryptStatusInfo::Active
        } else if code == CRYPT_BUSY {
            CryptStatusInfo::Busy
        } else {
            CryptStatusInfo::Invalid
        }
    }
}

/// Record containing data on the given active device
pub struct CryptRuntime<'a> {
    /// The device that this handle borrows for itself alone
    pub reference: &'a mut CryptDevice,
}

impl CryptDevice {
    /// Get a runtime attribute handle
    pub fn runtime_handle(&mut self) -> (handle: CryptRuntime<'_>)
        ensures
            handle.device() == old(self)@,
            *final(handle.reference) == *final(self),
    {
        CryptRuntime::new(self)
    }
}

impl<'a> CryptRuntime<'a> {
    /// The device as it stands.
    pub open spec fn device(&self) -> DeviceModel {
        (*self.reference)@
    }

    /// Borrows the device for status queries.
    pub fn new(reference: &'a mut CryptDevice) -> (runtime: Self)
        ensures
            runtime.device() == old(reference)@,
            *final(runtime.reference) == *final(reference),
    {
        CryptRuntime { reference }
    }

    /// Reads what the engine reports of the mapping `name` at this moment:
    /// its status code, and for an active mapping its size in sectors and
    /// whether it is suspended.
    pub fn status(&mut self, name: &str, code: i32, size: u64, suspended: bool) -> (r: Result<
        CryptDeviceStatus,
        LibcryptErr,
    >)
        ensures
            r == status_result(old(self).device(), name@, code, size, suspended),
            final(self).device() == observed(old(self).device(), name@, code, size, suspended),
            sound(old(self).device()) ==> sound(final(self).device()),
            *final(final(self).reference) == *final(old(self).reference),
    {
        if self.reference.is_busy() {
            return Err(LibcryptErr::refused(ErrorKind::DeviceBusy));
        }
        if !is_c_text(name) {
            return Err(LibcryptErr::refused(ErrorKind::InvalidArgument));
        }
        if code < 0 {
            return Err(LibcryptErr::from_status(code));
        }
        let info = CryptStatusInfo::of_code(code);
        match info {
            CryptStatusInfo::Active | CryptStatusInfo::Busy => {
                self.reference.note_mapping(name, Some(suspended));
                Ok(CryptDeviceStatus { info, size, suspended })
            },
            CryptStatusInfo::Inactive => {
                self.reference.note_mapping(name, None);
                Ok(CryptDeviceStatus { info, size: 0, suspended: false })
            },
            CryptStatusInfo::Invalid => Ok(CryptDeviceStatus { info, size: 0, suspended: false }),
        }
    }
}

} // verus!
