//! The device context and header-state machine of an encrypted block device
//! with a LUKS-style header.
//!
//! The library decides; the cryptographic engine works. Every operation is
//! first checked against what the device handle knows and, where nothing
//! speaks against it, turned into one request for the engine. The caller
//! hands the request to the engine and brings the engine's status back; the
//! handle then settles the request, which updates its state and yields the
//! structured result.
//!
//! - `device` holds the handle and settles the engine's answers; `request`
//!   says what the engine can be asked.
//! - `context`, `keyslot`, `activate`, `runtime`, `luks2_token` and
//!   `luks2_reencrypt` hold the operations, each on a handle that borrows
//!   the device for itself alone.
//! - `err` reads the engine's status; `format`, `header`, `key`, `mapping`,
//!   `token`, `reencrypt` and `text` hold the values that the operations
//!   work on.
//! - `sound` states what holds of every handle.
//!
//! A contract speaks of a device through its mathematical value, a
//! `DeviceModel`. The contract of an operation on a borrowing handle ends
//! with a clause that says that the handle still borrows the same device,
//! so that what the contract states of `device()` holds of the device once
//! the borrow ends.

use vstd::prelude::*;

pub mod activate;
pub mod context;
pub mod device;
pub mod err;
pub mod format;
pub mod header;
pub mod key;
pub mod keyslot;
pub mod luks2_reencrypt;
pub mod luks2_token;
pub mod mapping;
pub mod reencrypt;
pub mod request;
pub mod runtime;
pub mod sound;
pub mod text;
pub mod token;

pub use activate::CryptActivation;
pub use context::CryptContext;
pub use device::CryptDevice;
pub use err::{errno, errno_int_success, ErrorKind, LibcryptErr};
pub use format::{Format, FormatDescriptor};
pub use key::VolumeKey;
pub use keyslot::{CryptKeyslot, KeyslotInfo};
pub use luks2_reencrypt::CryptLuks2Reencrypt;
pub use luks2_token::CryptLuks2Token;
pub use reencrypt::{
    Chunk, CryptParamsReencrypt, CryptReencryptDirectionInfo, CryptReencryptModeInfo,
    ReencryptPhase, ReencryptStep, Reencryption,
};
pub use request::Request;
pub use runtime::{CryptDeviceStatus, CryptRuntime, CryptStatusInfo};
pub use token::Token;

verus! {

/// Boolean specifying yes or no
#[derive(Clone, Copy, Debug, PartialEq, Eq, Structural)]
pub enum Bool {
    /// False
    No,
    /// True
    Yes,
}

impl Bool {
    /// The integer that the engine takes for this value.
    pub open spec fn code(self) -> int {
        match self {
            Bool::No => 0,
            Bool::Yes => 1,
        }
    }

    /// The integer that the engine takes for this value: 0 for no, 1 for
    /// yes.
    pub fn as_int(self) -> (v: i32)
        ensures
            v == self.code(),
    {
        match self {
            Bool::No => 0,
            Bool::Yes => 1,
        }
    }
}

impl From<i32> for Bool {
    fn from(v: i32) -> (r: Bool) {
        if v == 0 {
            Bool::No
        } else {
            Bool::Yes
        }
    }
}

impl vstd::std_specs::convert::FromSpecImpl<i32> for Bool {
    open spec fn obeys_from_spec() -> bool {
        true
    }

    open spec fn from_spec(v: i32) -> Bool {
        if v == 0 {
            Bool::No
        } else {
            Bool::Yes
        }
    }
}

/// Whether the work in progress is asked to stop
#[derive(Clone, Copy, Debug, PartialEq, Eq, Structural)]
pub enum Interrupt {
    /// Go on
    No,
    /// Stop at the next boundary
    Yes,
}

impl From<i32> for Interrupt {
    fn from(v: i32) -> (r: Interrupt) {
        if v == 0 {
            Interrupt::No
        } else {
            Interrupt::Yes
        }
    }
}

impl vstd::std_specs::convert::FromSpecImpl<i32> for Interrupt {
    open spec fn obeys_from_spec() -> bool {
        true
    }

    open spec fn from_spec(v: i32) -> Interrupt {
        if v == 0 {
            Interrupt::No
        } else {
            Interrupt::Yes
        }
    }
}

/// Reading back the integer of a `Bool` gives the same `Bool`.
pub proof fn bool_round_trip(b: Bool)
    ensures
        <Bool as vstd::std_specs::convert::FromSpec<i32>>::from_spec(b.code() as i32) == b,
{
}

} // verus!
