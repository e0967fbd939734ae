//! Adding, changing, destroying and opening keyslots.
//!
//! Which passphrase opens which slot is the engine's knowledge alone. The
//! library checks that a header with keyslots is loaded and that a slot
//! number is one of its slots, and it sees to it that a volume key which
//! the engine handed out on a failed call is wiped.

use crate::context::loaded_header;
use crate::device::{accepted, answer, settled, submitted, CryptDevice, DeviceModel};
use crate::err::{refusal, ErrorKind, LibcryptErr, EPERM};
use crate::format::{keyslot_allowed, keyslot_limit, Format};
use crate::header::{HeaderModel, HeaderState, HeaderStateModel};
use crate::key::{zeros, VolumeKey};
use crate::request::{Request, RequestModel};
use crate::sound::sound;
use vstd::prelude::*;
use vstd::string::*;

verus! {

/// The engine's code for a keyslot that holds nothing.
pub const CRYPT_SLOT_INACTIVE: i32 = 1;

/// The engine's code for a keyslot that is bound to the volume key.
pub const CRYPT_SLOT_ACTIVE: i32 = 2;

/// The engine's code for the only keyslot that is bound to the volume key.
pub const CRYPT_SLOT_ACTIVE_LAST: i32 = 3;

/// The engine's code for a keyslot that holds a key other than the volume
/// key.
pub const CRYPT_SLOT_UNBOUND: i32 = 4;

/// The state of a keyslot.
#[derive(Clone, Copy, Debug, PartialEq, Eq, Structural)]
pub enum KeyslotInfo {
    /// The slot holds nothing.
    Inactive,
    /// The slot is active and bound to the volume key.
    Active,
    /// The slot is active, bound to the volume key, and the last such slot:
    /// destroying it leaves no way to open the device.
    ActiveLast,
    /// The slot is active and holds a key other than the volume key.
    Unbound,
}

/// What a keyslot status code of the engine means. A code that names no
/// state is an invalid argument.
pub open spec fn keyslot_info(code: i32) -> Result<KeyslotInfo, LibcryptErr> {
    if code < 0 {
        Err(crate::err::engine_error(code))
    } else if code == CRYPT_SLOT_INACTIVE {
        Ok(KeyslotInfo::Inactive)
    } else if code == CRYPT_SLOT_ACTIVE {
        Ok(KeyslotInfo::Active)
    } else if code == CRYPT_SLOT_ACTIVE_LAST {
        Ok(KeyslotInfo::ActiveLast)
    } else if code == CRYPT_SLOT_UNBOUND {
        Ok(KeyslotInfo::Unbound)
    } else {
        Err(refusal(ErrorKind::InvalidArgument))
    }
}

/// The loaded header with keyslots that a keyslot operation works on, or
/// the refusal: only the two LUKS versions have keyslots.
pub open spec fn keyslot_header(d: DeviceModel) -> Result<HeaderModel, LibcryptErr> {
    if d.outstanding is Some {
        Err(refusal(ErrorKind::DeviceBusy))
    } else {
        match loaded_header(d) {
            Err(e) => Err(e),
            Ok(h) => if keyslot_limit(h.type_) == 0 {
                Err(refusal(ErrorKind::Unsupported))
            } else {
                Ok(h)
            },
        }
    }
}

/// Whether an operation on a keyslot that may be left to the engine's
/// choice is accepted with the request `request`.
pub open spec fn keyslot_verdict(d: DeviceModel, keyslot: i32, request: RequestModel) -> Result<
    RequestModel,
    LibcryptErr,
> {
    match keyslot_header(d) {
        Err(e) => Err(e),
        Ok(h) => if !keyslot_allowed(h.type_, keyslot as int) {
            Err(refusal(ErrorKind::InvalidArgument))
        } else {
            Ok(request)
        },
    }
}

/// Whether an operation on one named keyslot is accepted with the request
/// `request`. `ANY_SLOT` names no slot.
pub open spec fn named_keyslot_verdict(
    d: DeviceModel,
    keyslot: i32,
    request: RequestModel,
) -> Result<RequestModel, LibcryptErr> {
    match keyslot_header(d) {
        Err(e) => Err(e),
        Ok(h) => if !(0 <= keyslot < keyslot_limit(h.type_)) {
            Err(refusal(ErrorKind::InvalidArgument))
        } else {
            Ok(request)
        },
    }
}

/// Whether `add_by_volume_key` is accepted. The key must have the length
/// that the header's cipher takes, as far as that is known.
pub open spec fn add_by_volume_key_verdict(
    d: DeviceModel,
    keyslot: i32,
    volume_key_len: usize,
    passphrase_len: usize,
) -> Result<RequestModel, LibcryptErr> {
    match keyslot_header(d) {
        Err(e) => Err(e),
        Ok(h) => if !keyslot_allowed(h.type_, keyslot as int) || (h.cipher is Some
            && h.cipher->Some_0.volume_key_len != volume_key_len) {
            Err(refusal(ErrorKind::InvalidArgument))
        } else {
            Ok(RequestModel::KeyslotAddByVolumeKey { keyslot, volume_key_len, passphrase_len })
        },
    }
}

/// Whether `change_by_passphrase` is accepted. The old slot may be left to
/// the engine's choice, and so may the new one.
pub open spec fn change_by_passphrase_verdict(
    d: DeviceModel,
    keyslot_old: i32,
    keyslot_new: i32,
    passphrase_len: usize,
    new_passphrase_len: usize,
) -> Result<RequestModel, LibcryptErr> {
    match keyslot_header(d) {
        Err(e) => Err(e),
        Ok(h) => if !keyslot_allowed(h.type_, keyslot_old as int) || !keyslot_allowed(
            h.type_,
            keyslot_new as int,
        ) {
            Err(refusal(ErrorKind::InvalidArgument))
        } else {
            Ok(
                RequestModel::KeyslotChangeByPassphrase {
                    keyslot_old,
                    keyslot_new,
                    passphrase_len,
                    new_passphrase_len,
                },
            )
        },
    }
}

/// What the caller of `unlocked` is told. The engine's answer decides; a
/// key that the engine handed out is only kept where its length is the one
/// that the header's cipher takes, as far as that is known.
pub open spec fn unlock_result(d: DeviceModel, status: i32, key: Seq<u8>) -> Result<
    i32,
    LibcryptErr,
> {
    match answer(d, status) {
        Err(e) => Err(e),
        Ok(keyslot) => match d.header {
            HeaderStateModel::Loaded(h) => if h.cipher is Some && h.cipher->Some_0.volume_key_len
                != key.len() {
                Err(refusal(ErrorKind::IoError))
            } else {
                Ok(keyslot)
            },
            _ => Ok(keyslot),
        },
    }
}

impl KeyslotInfo {
    /// Reads a keyslot status code of the engine.
    pub fn of_code(code: i32) -> (r: Result<KeyslotInfo, LibcryptErr>)
        ensures
            r == keyslot_info(code),
    {
        if code < 0 {
            Err(LibcryptErr::from_status(code))
        } else if code == CRYPT_SLOT_INACTIVE {
            Ok(KeyslotInfo::Inactive)
        } else if code == CRYPT_SLOT_ACTIVE {
            Ok(KeyslotInfo::Active)
        } else if code == CRYPT_SLOT_ACTIVE_LAST {
            Ok(KeyslotInfo::ActiveLast)
        } else if code == CRYPT_SLOT_UNBOUND {
            Ok(KeyslotInfo::Unbound)
        } else {
            Err(LibcryptErr::refused(ErrorKind::InvalidArgument))
        }
    }
}

/// Handle for keyslot operations
pub struct CryptKeyslot<'a> {
    /// The device that this handle borrows for itself alone
    pub reference: &'a mut CryptDevice,
}

impl CryptDevice {
    /// Get a keyslot option handle
    pub fn keyslot_handle(&mut self) -> (handle: CryptKeyslot<'_>)
        ensures
            handle.device() == old(self)@,
            *final(handle.reference) == *final(self),
    {
        CryptKeyslot::new(self)
    }
}

impl<'a> CryptKeyslot<'a> {
    /// The device as it stands.
    pub open spec fn device(&self) -> DeviceModel {
        (*self.reference)@
    }

    /// Borrows the device for keyslot operations.
    pub fn new(reference: &'a mut CryptDevice) -> (keyslots: Self)
        ensures
            keyslots.device() == old(reference)@,
            *final(keyslots.reference) == *final(reference),
    {
        CryptKeyslot { reference }
    }

    /// The type of the loaded header with keyslots, and the length of the
    /// volume key that its cipher takes where that is known; or the
    /// refusal.
    fn header(&self) -> (r: Result<(Format, Option<usize>), LibcryptErr>)
        ensures
            r is Ok <==> keyslot_header(self.device()) is Ok,
            r matches Ok(found) ==> keyslot_header(self.device())->Ok_0.type_ == found.0 && found.1
                == (match keyslot_header(self.device())->Ok_0.cipher {
                Some(c) => Some(c.volume_key_len),
                None => None,
            }),
            r matches Err(e) ==> keyslot_header(self.device()) == Err::<HeaderModel, LibcryptErr>(
                e,
            ),
    {
        if self.reference.is_busy() {
            return Err(LibcryptErr::refused(ErrorKind::DeviceBusy));
        }
        match self.reference.header() {
            HeaderState::Loaded(h) => {
                if h.type_.keyslots() == 0 {
                    Err(LibcryptErr::refused(ErrorKind::Unsupported))
                } else {
                    let key_len = match &h.cipher {
                        Some(c) => Some(c.volume_key_len),
                        None => None,
                    };
                    Ok((h.type_, key_len))
                }
            },
            HeaderState::Absent => Err(LibcryptErr::refused(ErrorKind::HeaderNotFound)),
            HeaderState::Corrupt => Err(LibcryptErr::refused(ErrorKind::HeaderCorrupt)),
        }
    }

    /// Add key slot using a passphrase
    ///
    /// `passphrase` opens an existing keyslot; `new_passphrase` will open
    /// the new one. The number of the new keyslot is the value that
    /// `CryptDevice::complete` hands back for this request.
    pub fn add_by_passphrase(&mut self, keyslot: i32, passphrase: &str, new_passphrase: &str) -> (r:
        Result<(), LibcryptErr>)
        ensures
            r == accepted(
                keyslot_verdict(
                    old(self).device(),
                    keyslot,
                    RequestModel::KeyslotAddByPassphrase {
                        keyslot,
                        passphrase_len: passphrase.spec_bytes().len() as usize,
                        new_passphrase_len: new_passphrase.spec_bytes().len() as usize,
                    },
                ),
            ),
            final(self).device() == submitted(
                old(self).device(),
                keyslot_verdict(
                    old(self).device(),
                    keyslot,
                    RequestModel::KeyslotAddByPassphrase {
                        keyslot,
                        passphrase_len: passphrase.spec_bytes().len() as usize,
                        new_passphrase_len: new_passphrase.spec_bytes().len() as usize,
                    },
                ),
            ),
            sound(old(self).device()) ==> sound(final(self).device()),
            *final(final(self).reference) == *final(old(self).reference),
    {
        match self.header() {
            Err(e) => Err(e),
            Ok((type_, _)) => {
                if !type_.allows_keyslot(keyslot) {
                    Err(LibcryptErr::refused(ErrorKind::InvalidArgument))
                } else {
                    self.reference.submit(
                        Request::KeyslotAddByPassphrase {
                            keyslot,
                            passphrase_len: passphrase.len(),
                            new_passphrase_len: new_passphrase.len(),
                        },
                    );
                    Ok(())
                }
            },
        }
    }

    /// Add key slot using volume key
    ///
    /// The number of the new keyslot is the value that
    /// `CryptDevice::complete` hands back for this request.
    pub fn add_by_volume_key(
        &mut self,
        keyslot: i32,
        volume_key: &VolumeKey,
        passphrase: &str,
    ) -> (r: Result<(), LibcryptErr>)
        ensures
            r == accepted(
                add_by_volume_key_verdict(
                    old(self).device(),
                    keyslot,
                    volume_key@.len() as usize,
                    passphrase.spec_bytes().len() as usize,
                ),
            ),
            final(self).device() == submitted(
                old(self).device(),
                add_by_volume_key_verdict(
                    old(self).device(),
                    keyslot,
                    volume_key@.len() as usize,
                    passphrase.spec_bytes().len() as usize,
                ),
            ),
            sound(old(self).device()) ==> sound(final(self).device()),
            *final(final(self).reference) == *final(old(self).reference),
    {
        match self.header() {
            Err(e) => Err(e),
            Ok((type_, key_len)) => {
                let fits = match key_len {
                    Some(len) => len == volume_key.len(),
                    None => true,
                };
                if !type_.allows_keyslot(keyslot) || !fits {
                    Err(LibcryptErr::refused(ErrorKind::InvalidArgument))
                } else {
                    self.reference.submit(
                        Request::KeyslotAddByVolumeKey {
                            keyslot,
                            volume_key_len: volume_key.len(),
                            passphrase_len: passphrase.len(),
                        },
                    );
                    Ok(())
                }
            },
        }
    }

    /// Change allocated key slot using a passphrase
    ///
    /// The key material stays; only the passphrase that opens it changes.
    /// The number of the keyslot that holds it afterwards is the value that
    /// `CryptDevice::complete` hands back for this request.
    pub fn change_by_passphrase(
        &mut self,
        keyslot_old: i32,
        keyslot_new: i32,
        passphrase: &str,
        new_passphrase: &str,
    ) -> (r: Result<(), LibcryptErr>)
        ensures
            r == accepted(
                change_by_passphrase_verdict(
                    old(self).device(),
                    keyslot_old,
                    keyslot_new,
                    passphrase.spec_bytes().len() as usize,
                    new_passphrase.spec_bytes().len() as usize,
                ),
            ),
            final(self).device() == submitted(
                old(self).device(),
                change_by_passphrase_verdict(
                    old(self).device(),
                    keyslot_old,
                    keyslot_new,
                    passphrase.spec_bytes().len() as usize,
                    new_passphrase.spec_bytes().len() as usize,
                ),
            ),
            sound(old(self).device()) ==> sound(final(self).device()),
            *final(final(self).reference) == *final(old(self).reference),
    {
        match self.header() {
            Err(e) => Err(e),
            Ok((type_, _)) => {
                if !type_.allows_keyslot(keyslot_old) || !type_.allows_keyslot(keyslot_new) {
                    Err(LibcryptErr::refused(ErrorKind::InvalidArgument))
                } else {
                    self.reference.submit(
                        Request::KeyslotChangeByPassphrase {
                            keyslot_old,
                            keyslot_new,
                            passphrase_len: passphrase.len(),
                            new_passphrase_len: new_passphrase.len(),
                        },
                    );
                    Ok(())
                }
            },
        }
    }

    /// Destroy key slot
    ///
    /// The engine wipes the key material of the slot. The library does not
    /// stand in the way of destroying the last slot; `status` tells
    /// beforehand whether a slot is the last.
    pub fn destroy(&mut self, keyslot: i32) -> (r: Result<(), LibcryptErr>)
        ensures
            r == accepted(
                named_keyslot_verdict(
                    old(self).device(),
                    keyslot,
                    RequestModel::KeyslotDestroy { keyslot },
                ),
            ),
            final(self).device() == submitted(
                old(self).device(),
                named_keyslot_verdict(
                    old(self).device(),
                    keyslot,
                    RequestModel::KeyslotDestroy { keyslot },
                ),
            ),
            sound(old(self).device()) ==> sound(final(self).device()),
            *final(final(self).reference) == *final(old(self).reference),
    {
        match self.header() {
            Err(e) => Err(e),
            Ok((type_, _)) => {
                if !(0 <= keyslot && keyslot < type_.keyslots()) {
                    Err(LibcryptErr::refused(ErrorKind::InvalidArgument))
                } else {
                    self.reference.submit(Request::KeyslotDestroy { keyslot });
                    Ok(())
                }
            },
        }
    }

    /// Get keyslot status
    ///
    /// The state is the engine's to report: `KeyslotInfo::of_code` reads
    /// the value that `CryptDevice::complete` hands back for this request.
    pub fn status(&mut self, keyslot: i32) -> (r: Result<(), LibcryptErr>)
        ensures
            r == accepted(
                named_keyslot_verdict(
                    old(self).device(),
                    keyslot,
                    RequestModel::KeyslotStatus { keyslot },
                ),
            ),
            final(self).device() == submitted(
                old(self).device(),
                named_keyslot_verdict(
                    old(self).device(),
                    keyslot,
                    RequestModel::KeyslotStatus { keyslot },
                ),
            ),
            sound(old(self).device()) ==> sound(final(self).device()),
            *final(final(self).reference) == *final(old(self).reference),
    {
        match self.header() {
            Err(e) => Err(e),
            Ok((type_, _)) => {
                if !(0 <= keyslot && keyslot < type_.keyslots()) {
                    Err(LibcryptErr::refused(ErrorKind::InvalidArgument))
                } else {
                    self.reference.submit(Request::KeyslotStatus { keyslot });
                    Ok(())
                }
            },
        }
    }

    /// Asks the engine to open a keyslot with `passphrase` and to hand out
    /// the volume key. `unlocked` settles the request.
    pub fn unlock(&mut self, keyslot: i32, passphrase: &str) -> (r: Result<(), LibcryptErr>)
        ensures
            r == accepted(
                keyslot_verdict(
                    old(self).device(),
                    keyslot,
                    RequestModel::VolumeKeyGet {
                        keyslot,
                        passphrase_len: passphrase.spec_bytes().len() as usize,
                    },
                ),
            ),
            final(self).device() == submitted(
                old(self).device(),
                keyslot_verdict(
                    old(self).device(),
                    keyslot,
                    RequestModel::VolumeKeyGet {
                        keyslot,
                        passphrase_len: passphrase.spec_bytes().len() as usize,
                    },
                ),
            ),
            sound(old(self).device()) ==> sound(final(self).device()),
            *final(final(self).reference) == *final(old(self).reference),
    {
        match self.header() {
            Err(e) => Err(e),
            Ok((type_, _)) => {
                if !type_.allows_keyslot(keyslot) {
                    Err(LibcryptErr::refused(ErrorKind::InvalidArgument))
                } else {
                    self.reference.submit(
                        Request::VolumeKeyGet { keyslot, passphrase_len: passphrase.len() },
                    );
                    Ok(())
                }
            },
        }
    }

    /// Settles the outstanding request with the engine's status and takes
    /// charge of the buffer that the engine filled with the volume key.
    /// On success the key is left as it is and the keyslot that opened is
    /// returned. On every failure the buffer is wiped before the error is
    /// returned.
    pub fn unlocked(&mut self, status: i32, key: &mut VolumeKey) -> (r: Result<i32, LibcryptErr>)
        ensures
            r == unlock_result(old(self).device(), status, old(key)@),
            final(self).device() == settled(old(self).device(), status),
            r is Ok ==> final(key)@ == old(key)@,
            r is Err ==> final(key)@ == zeros(old(key)@.len()),
            sound(old(self).device()) ==> sound(final(self).device()),
            *final(final(self).reference) == *final(old(self).reference),
    {
        let fits = match self.reference.header() {
            HeaderState::Loaded(h) => match &h.cipher {
                Some(c) => c.volume_key_len == key.len(),
                None => true,
            },
            _ => true,
        };
        match self.reference.complete(status) {
            Err(e) => {
                key.scrub();
                Err(e)
            },
            Ok(keyslot) => {
                if fits {
                    Ok(keyslot)
                } else {
                    key.scrub();
                    Err(LibcryptErr::refused(ErrorKind::IoError))
                }
            },
        }
    }
}

/// A wrong passphrase reads as wrong credentials, never as a storage
/// failure.
///
/// Whatever request is outstanding, when the engine answers that the
/// credentials opened nothing, the caller gets `WrongCredentials`, the
/// handle keeps everything it knew, and a key buffer that went through
/// `unlocked` is refused with the same kind.
pub proof fn wrong_passphrase_is_not_an_io_error(d: DeviceModel, status: i32, key: Seq<u8>)
    requires
        d.outstanding is Some,
        status == -EPERM,
    ensures
        answer(d, status) == Err::<i32, LibcryptErr>(
            LibcryptErr { kind: ErrorKind::WrongCredentials, status },
        ),
        unlock_result(d, status, key) == Err::<i32, LibcryptErr>(
            LibcryptErr { kind: ErrorKind::WrongCredentials, status },
        ),
        settled(d, status).header == d.header,
        settled(d, status).mappings == d.mappings,
{
    match d.outstanding->Some_0 {
        RequestModel::ReencryptChunk { .. } => {},
        _ => {},
    }
}

/// A key that is handed out has the length of the key that was bound at
/// format time.
///
/// Once a header was formatted with a volume key, and whatever was done
/// to the handle since, as long as that header is loaded: a key that
/// `unlocked` lets through has exactly the length of the key given to
/// `format`. A buffer of any other length is refused and wiped.
pub proof fn unlocked_key_has_the_bound_length(d: DeviceModel, status: i32, key: Seq<u8>)
    requires
        d.header matches HeaderStateModel::Loaded(h) && h.cipher is Some,
    ensures
        ({
            let bound = d.header->Loaded_0.cipher->Some_0.volume_key_len;
            &&& unlock_result(d, status, key) is Ok ==> key.len() == bound
            &&& key.len() != bound ==> unlock_result(d, status, key) is Err
        }),
{
}

} // verus!
